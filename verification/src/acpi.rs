//! ACPI table discovery: the root pointer, the root table, and the processors
//! that the Multiple APIC Description Table lists.

use either::Either;
use vstd::prelude::*;

use crate::acpi::cores::ProcessorList;
use crate::mem::PhysMemory;

pub mod bringup;
pub mod checksum;
pub mod cores;
pub mod madt;
pub mod parse;
pub mod rsdp;
pub mod rsdt;
pub mod sdt;

verus! {

/// Most processors that discovery records.
pub const MAX_CORES: usize = 16;

/// Bytes in the ACPI 1.0 root pointer.
pub const RSDP_SIZE: u64 = 20;

/// Bytes in the common header of a System Description Table.
pub const SDT_HEADER_SIZE: u64 = 36;

/// Bytes between a MADT's common header and its first entry: the local APIC
/// address and the flags.
pub const MADT_FIELDS_SIZE: u64 = 8;

/// Why discovery failed.
#[derive(Debug, Clone, Copy, PartialEq, Eq, Structural)]
pub enum Error {
    /// No candidate location holds the root pointer's signature.
    RSDPSignatureNotFound,
    /// The root pointer's revision is neither 0 nor 2.
    InvalidVersion,
    /// The root pointer's first 20 bytes do not sum to zero.
    RSDPChecksum,
    /// The extended part of the root pointer does not sum to zero.
    RSDPExtendedChecksum,
    /// The root table of an ACPI 1.0 system is not signed `RSDT`.
    InvalidRSDTSignature,
    /// The RSDT's payload is not a whole number of 4-byte pointers.
    InvalidRSDTTableSize,
    /// The root table of an ACPI 2.0 system is not signed `XSDT`.
    InvalidXSDTSignature,
    /// The XSDT's payload is not a whole number of 8-byte pointers.
    InvalidXSDTTableSize,
    /// More usable processors are listed than `MAX_CORES`.
    TooManyCores,
    /// A Processor Local APIC entry is not 8 bytes long.
    InvalidAPICEntrySize,
    /// A Processor Local x2APIC entry is not 16 bytes long.
    Invalidx2APICEntrySize,
    /// A table's bytes do not sum to zero.
    SDTChecksum,
}

/// Makes `either::Either` known to the verifier as the enum it is, with its
/// variants `Left` and `Right`. Nothing is claimed of its methods, and none
/// is called: values are built and taken apart by their variants.
#[verifier::external_type_specification]
#[verifier::reject_recursive_types(L)]
#[verifier::reject_recursive_types(R)]
pub struct ExEither<L, R>(Either<L, R>);

/// Root System Description Pointer of ACPI 1.0.
#[derive(Debug, Clone, Copy)]
pub struct Rsdp {
    pub signature: [u8; 8],
    pub checksum: u8,
    pub oem_id: [u8; 6],
    pub revision: u8,
    pub rsdt_address: u32,
}

/// Root System Description Pointer of ACPI 2.0 and later.
#[derive(Debug, Clone, Copy)]
pub struct RsdpExtended {
    pub first_part: Rsdp,
    pub length: u32,
    pub xsdt_address: u64,
    pub extended_checksum: u8,
    pub reserved: [u8; 3],
}

/// The header that every System Description Table starts with.
#[derive(Debug, Clone, Copy)]
pub struct SDTHeader {
    pub signature: [u8; 4],
    pub length: u32,
    pub revision: u8,
    pub checksum: u8,
    pub oem_id: [u8; 6],
    pub oem_table_id: [u8; 8],
    pub oem_revision: u32,
    pub creator_id: u32,
    pub creator_revision: u32,
}

/// How to walk the root table: the width of its pointers, where the first
/// one lies, and how many there are.
#[derive(Debug, Clone, Copy, PartialEq, Eq, Structural)]
pub struct RsdtConfig {
    pub entry_size: usize,
    pub start_addr: u64,
    pub num_entries: usize,
}

impl Rsdp {
    /// Whether this value is what the 20 bytes at `addr` spell.
    pub open spec fn decodes(&self, mem: &PhysMemory, addr: int) -> bool {
        &&& self.signature@ == mem.bytes_at(addr, 8)
        &&& self.checksum == mem.byte_at(addr + 8)
        &&& self.oem_id@ == mem.bytes_at(addr + 9, 6)
        &&& self.revision == mem.byte_at(addr + 15)
        &&& self.rsdt_address == mem.u32_at(addr + 16)
    }

    /// Decodes the root pointer at `addr`.
    pub fn read(mem: &PhysMemory, addr: u64) -> (r: Rsdp)
        ensures
            r.decodes(mem, addr as int),
    {
        let signature: [u8; 8] = [
            mem.read_at(addr, 0),
            mem.read_at(addr, 1),
            mem.read_at(addr, 2),
            mem.read_at(addr, 3),
            mem.read_at(addr, 4),
            mem.read_at(addr, 5),
            mem.read_at(addr, 6),
            mem.read_at(addr, 7),
        ];
        let oem_id: [u8; 6] = [
            mem.read_at(addr, 9),
            mem.read_at(addr, 10),
            mem.read_at(addr, 11),
            mem.read_at(addr, 12),
            mem.read_at(addr, 13),
            mem.read_at(addr, 14),
        ];
        let r = Rsdp {
            signature,
            checksum: mem.read_at(addr, 8),
            oem_id,
            revision: mem.read_at(addr, 15),
            rsdt_address: mem.read_u32_at(addr, 16),
        };
        assert(r.signature@ =~= mem.bytes_at(addr as int, 8));
        assert(r.oem_id@ =~= mem.bytes_at(addr + 9, 6));
        r
    }
}

impl Default for Rsdp {
    /// The all-zero root pointer.
    fn default() -> (r: Rsdp)
        ensures
            r.signature@ == Seq::new(8, |i: int| 0u8),
            r.checksum == 0,
            r.oem_id@ == Seq::new(6, |i: int| 0u8),
            r.revision == 0,
            r.rsdt_address == 0,
    {
        let r = Rsdp { signature: [0u8; 8], checksum: 0, oem_id: [0u8; 6], revision: 0, rsdt_address: 0 };
        assert(r.signature@ =~= Seq::new(8, |i: int| 0u8));
        assert(r.oem_id@ =~= Seq::new(6, |i: int| 0u8));
        r
    }
}

impl RsdpExtended {
    /// Whether this value is what the 36 bytes at `addr` spell.
    pub open spec fn decodes(&self, mem: &PhysMemory, addr: int) -> bool {
        &&& self.first_part.decodes(mem, addr)
        &&& self.length == mem.u32_at(addr + 20)
        &&& self.xsdt_address == mem.u64_at(addr + 24)
        &&& self.extended_checksum == mem.byte_at(addr + 32)
        &&& self.reserved@ == mem.bytes_at(addr + 33, 3)
    }

    /// Decodes the extended root pointer at `addr`.
    pub fn read(mem: &PhysMemory, addr: u64) -> (r: RsdpExtended)
        ensures
            r.decodes(mem, addr as int),
    {
        let reserved: [u8; 3] = [mem.read_at(addr, 33), mem.read_at(addr, 34), mem.read_at(addr, 35)];
        let xsdt_address = match addr.checked_add(24) {
            Some(a) => mem.read_u64(a),
            None => 0,
        };
        let r = RsdpExtended {
            first_part: Rsdp::read(mem, addr),
            length: mem.read_u32_at(addr, 20),
            xsdt_address,
            extended_checksum: mem.read_at(addr, 32),
            reserved,
        };
        assert(r.reserved@ =~= mem.bytes_at(addr + 33, 3));
        r
    }
}

/// What discovery found: the root pointer, how to walk the root table, the
/// usable processors, and how many of them bring-up has dealt with.
pub struct ParsedACPI {
    /// Revision of the root pointer: 0 for ACPI 1.0, 2 for ACPI 2.0 and later.
    pub version: usize,
    rsdp: Either<Rsdp, RsdpExtended>,
    rsdt_config: RsdtConfig,
    apics: ProcessorList,
    cur_apic: usize,
}

/// The contents of a [`ParsedACPI`].
pub struct Discovery {
    /// Revision of the root pointer.
    pub version: usize,
    /// The root pointer that was found.
    pub root: Either<Rsdp, RsdpExtended>,
    /// How the root table is walked.
    pub config: RsdtConfig,
    /// APIC ids of the usable processors, in the order they were found.
    pub ids: Seq<u32>,
    /// How many of the processors bring-up has dealt with.
    pub cursor: nat,
}

impl View for ParsedACPI {
    type V = Discovery;

    closed spec fn view(&self) -> Discovery {
        Discovery {
            version: self.version,
            root: self.rsdp,
            config: self.rsdt_config,
            ids: self.apics@,
            cursor: self.cur_apic as nat,
        }
    }
}

impl ParsedACPI {
    /// The version names the variant of the root pointer, the list is within
    /// capacity, and the cursor is within the list.
    pub open spec fn wf(&self) -> bool {
        &&& match self@.root {
            Either::Left(_) => self@.version == 0,
            Either::Right(_) => self@.version == 2,
        }
        &&& self@.ids.len() <= MAX_CORES
        &&& self@.cursor <= self@.ids.len()
    }

    /// The state before discovery: version 0, an all-zero root pointer, no
    /// table entries, no processors.
    pub fn default() -> (acpi: ParsedACPI)
        ensures
            acpi.wf(),
            acpi@.version == 0,
            acpi@.root is Left,
            acpi@.config == (RsdtConfig { entry_size: 0, start_addr: 0, num_entries: 0 }),
            acpi@.ids == Seq::<u32>::empty(),
            acpi@.cursor == 0,
    {
        ParsedACPI {
            version: 0,
            rsdp: Either::Left(Rsdp::default()),
            rsdt_config: RsdtConfig { entry_size: 0, start_addr: 0, num_entries: 0 },
            apics: ProcessorList::new(),
            cur_apic: 0,
        }
    }

    /// Revision of the root pointer: 0 for ACPI 1.0, 2 for ACPI 2.0 and later.
    pub fn version(&self) -> (v: usize)
        ensures
            v == self@.version,
    {
        self.version
    }

    /// The root pointer that was found.
    pub fn root_pointer(&self) -> (r: Either<Rsdp, RsdpExtended>)
        ensures
            r == self@.root,
    {
        self.rsdp
    }

    /// How the root table is walked.
    pub fn table_config(&self) -> (c: RsdtConfig)
        ensures
            c == self@.config,
    {
        self.rsdt_config
    }

    /// How many usable processors were found.
    pub fn num_apics(&self) -> (n: usize)
        ensures
            n == self@.ids.len(),
    {
        self.apics.len()
    }

    /// The APIC id of the `i`-th usable processor, if there are that many.
    pub fn apic_id(&self, i: usize) -> (id: Option<u32>)
        ensures
            id == if i < self@.ids.len() { Some(self@.ids[i as int]) } else { None },
    {
        self.apics.get(i)
    }

    /// How many of the processors bring-up has dealt with.
    pub fn cur_apic(&self) -> (n: usize)
        ensures
            n == self@.cursor,
    {
        self.cur_apic
    }

    /// Records a usable processor, or reports that the list is full and
    /// leaves it as it is.
    pub fn record(&mut self, id: u32) -> (r: Result<(), Error>)
        requires
            old(self).wf(),
        ensures
            final(self).wf(),
            old(self)@.ids.len() < MAX_CORES ==> r == Ok::<(), Error>(()) && final(self)@ == (Discovery {
                ids: old(self)@.ids.push(id),
                ..old(self)@
            }),
            old(self)@.ids.len() >= MAX_CORES ==> r == Err::<(), Error>(Error::TooManyCores)
                && final(self)@ == old(self)@,
    {
        self.apics.push(id)
    }

    /// Stores the root pointer, and the version that goes with its variant.
    pub(crate) fn set_root(&mut self, root: Either<Rsdp, RsdpExtended>)
        requires
            old(self).wf(),
        ensures
            final(self).wf(),
            final(self)@ == (Discovery {
                version: if root is Left { 0usize } else { 2usize },
                root,
                ..old(self)@
            }),
    {
        self.version = match root {
            Either::Left(_) => 0,
            Either::Right(_) => 2,
        };
        self.rsdp = root;
    }

    /// Stores how the root table is walked.
    pub(crate) fn set_config(&mut self, config: RsdtConfig)
        requires
            old(self).wf(),
        ensures
            final(self).wf(),
            final(self)@ == (Discovery { config, ..old(self)@ }),
    {
        self.rsdt_config = config;
    }

    /// Moves the cursor on by one.
    pub(crate) fn advance(&mut self)
        requires
            old(self).wf(),
            old(self)@.cursor < old(self)@.ids.len(),
        ensures
            final(self).wf(),
            final(self)@ == (Discovery { cursor: old(self)@.cursor + 1, ..old(self)@ }),
    {
        proof {
            assert(self.cur_apic < MAX_CORES);
        }
        self.cur_apic = self.cur_apic + 1;
    }
}

} // verus!
