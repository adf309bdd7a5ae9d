//! Discovery from start to end: root pointer, root table, and every MADT that
//! the root table points to.

use vstd::prelude::*;

use crate::acpi::madt::{walk_entries, Walk};
use crate::acpi::rsdp::{locate, root_decodes};
use crate::acpi::rsdt::{lemma_nonzero_is_mapped, resolve, XSDT_ENTRY_SIZE};
use crate::acpi::sdt::{table_len, table_signature};
use crate::acpi::{
    Discovery, Error, ParsedACPI, RsdtConfig, SDTHeader, MADT_FIELDS_SIZE, RSDP_SIZE, SDT_HEADER_SIZE,
};
use crate::mem::{PhysMemory, PHYS_LIMIT};

verus! {

/// `APIC`, the signature of the MADT, read as one little-endian number.
pub const MADT_SIGNATURE: u32 = 0x4349_5041;

/// Offset of the RSDT's address in the root pointer.
pub const RSDT_ADDRESS_OFFSET: u64 = 16;

/// Offset of the XSDT's address in the extended root pointer.
pub const XSDT_ADDRESS_OFFSET: u64 = 24;

impl RsdtConfig {
    /// Offset of the `i`-th pointer from the first.
    pub open spec fn offset(&self, i: int) -> int {
        if self.entry_size == XSDT_ENTRY_SIZE {
            8 * i
        } else {
            4 * i
        }
    }

    /// The pointers are 4 or 8 bytes wide, and all of them lie below the end
    /// of the 64-bit address space.
    pub open spec fn wf(&self) -> bool {
        &&& self.entry_size == 4 || self.entry_size == 8
        &&& self.start_addr + self.offset(self.num_entries as int) <= u64::MAX
    }
}

/// The address that the `i`-th pointer of the root table holds.
pub open spec fn table_pointer(mem: &PhysMemory, config: RsdtConfig, i: int) -> int {
    if config.entry_size == XSDT_ENTRY_SIZE {
        mem.u64_at(config.start_addr + config.offset(i)) as int
    } else {
        mem.u32_at(config.start_addr + config.offset(i)) as int
    }
}

/// What the table at `table` adds to `ids`: the usable processors among its
/// entries if it is signed `APIC`, nothing if it carries another signature.
pub open spec fn scan_table(mem: &PhysMemory, table: int, ids: Seq<u32>) -> Walk {
    if table_signature(mem, table) == MADT_SIGNATURE {
        walk_entries(
            mem,
            table + SDT_HEADER_SIZE + MADT_FIELDS_SIZE,
            table + table_len(mem, table),
            ids,
        )
    } else {
        Walk { ids, error: None }
    }
}

/// Goes through the root table's pointers from the `i`-th on, with `ids`
/// already recorded, and scans the table behind each. The first error ends
/// it.
pub open spec fn scan_tables(mem: &PhysMemory, config: RsdtConfig, i: int, ids: Seq<u32>) -> Walk
    decreases config.num_entries - i,
{
    if i >= config.num_entries {
        Walk { ids, error: None }
    } else {
        let walk = scan_table(mem, table_pointer(mem, config, i), ids);
        if walk.error is Some {
            walk
        } else {
            scan_tables(mem, config, i + 1, walk.ids)
        }
    }
}

/// What discovery finds in a memory image.
pub struct Found {
    /// Where the root pointer lies.
    pub addr: int,
    /// Revision of the root pointer.
    pub version: usize,
    /// How the root table is walked.
    pub config: RsdtConfig,
    /// APIC ids of the usable processors, in the order they were found.
    pub ids: Seq<u32>,
}

/// Where the root pointer of revision `version` at `addr` says the root
/// table lies.
pub open spec fn root_table_at(mem: &PhysMemory, addr: int, version: usize) -> int {
    if version == 2 {
        mem.u64_at(addr + XSDT_ADDRESS_OFFSET) as int
    } else {
        mem.u32_at(addr + RSDT_ADDRESS_OFFSET) as int
    }
}

/// Discovery as a whole: locate the root pointer, resolve the root table,
/// scan its tables. The first step that fails gives the error.
pub open spec fn discover(mem: &PhysMemory) -> Result<Found, Error> {
    match locate(mem) {
        Err(e) => Err(e),
        Ok((addr, version)) => match resolve(mem, version == 2, root_table_at(mem, addr, version)) {
            Err(e) => Err(e),
            Ok(config) => {
                let walk = scan_tables(mem, config, 0, Seq::empty());
                match walk.error {
                    Some(e) => Err(e),
                    None => Ok(Found { addr, version, config, ids: walk.ids }),
                }
            },
        },
    }
}

/// A configuration that resolution gives is well-formed, and its pointers
/// lie within 4 GiB of the end of physical memory.
pub proof fn lemma_resolved_is_wf(mem: &PhysMemory, wide: bool, addr: int)
    requires
        0 <= addr,
        resolve(mem, wide, addr) is Ok,
    ensures
        resolve(mem, wide, addr)->Ok_0.wf(),
        resolve(mem, wide, addr)->Ok_0.start_addr == addr + SDT_HEADER_SIZE,
        addr < PHYS_LIMIT,
{
    lemma_nonzero_is_mapped(mem, addr);
}

/// Reads the `i`-th pointer of the root table.
pub fn read_table_pointer(mem: &PhysMemory, config: &RsdtConfig, i: usize) -> (table: u64)
    requires
        config.wf(),
        i < config.num_entries,
    ensures
        table == table_pointer(mem, *config, i as int),
{
    if config.entry_size == XSDT_ENTRY_SIZE {
        mem.read_u64(config.start_addr + 8 * (i as u64))
    } else {
        mem.read_u32(config.start_addr + 4 * (i as u64)) as u64
    }
}

impl ParsedACPI {
    /// Looks at the table at `table` and, if it is a MADT, records its usable
    /// processors after those already recorded. The table's checksum is not
    /// looked at.
    pub fn parse_table(&mut self, mem: &PhysMemory, table: u64) -> (r: Result<(), Error>)
        requires
            old(self).wf(),
        ensures
            final(self).wf(),
            final(self)@ == (Discovery {
                ids: scan_table(mem, table as int, old(self)@.ids).ids,
                ..old(self)@
            }),
            r == scan_table(mem, table as int, old(self)@.ids).result(),
    {
        let header = SDTHeader::read(mem, table);
        proof {
            header.lemma_signature_word(mem, table as int);
        }
        if header.has_signature(MADT_SIGNATURE) {
            proof {
                lemma_nonzero_is_mapped(mem, table as int);
            }
            let start_addr = table + SDT_HEADER_SIZE;
            let end_addr = table + header.length as u64;
            self.parse_madt(mem, start_addr, end_addr)
        } else {
            Ok(())
        }
    }

    /// Finds and validates the ACPI tables in `mem` and lists the usable
    /// processors.
    pub fn parse(mem: &PhysMemory) -> (r: Result<ParsedACPI, Error>)
        ensures
            match discover(mem) {
                Ok(found) => {
                    &&& r matches Ok(acpi)
                    &&& acpi.wf()
                    &&& root_decodes(acpi@.root, mem, found.addr, found.version)
                    &&& acpi@ == (Discovery {
                        version: found.version,
                        root: acpi@.root,
                        config: found.config,
                        ids: found.ids,
                        cursor: 0,
                    })
                },
                Err(e) => r matches Err(x) && x == e,
            },
    {
        let mut acpi = ParsedACPI::default();
        match acpi.parse_rsdp(mem) {
            Ok(()) => {},
            Err(e) => {
                return Err(e);
            },
        }
        let ghost located = locate(mem)->Ok_0;
        proof {
            assert(crate::acpi::rsdt::root_table(acpi@.root) == root_table_at(
                mem,
                located.0,
                located.1,
            ));
        }
        match acpi.rsdt_config(mem) {
            Ok(()) => {},
            Err(e) => {
                return Err(e);
            },
        }
        let config = acpi.table_config();
        let ghost resolved = acpi@;
        proof {
            lemma_resolved_is_wf(mem, located.1 == 2, root_table_at(mem, located.0, located.1));
        }
        let mut i: usize = 0;
        while i < config.num_entries
            invariant
                i <= config.num_entries,
                config.wf(),
                acpi.wf(),
                acpi@ == (Discovery { ids: acpi@.ids, ..resolved }),
                locate(mem) == Ok::<(int, usize), Error>(located),
                resolve(mem, located.1 == 2, root_table_at(mem, located.0, located.1)) == Ok::<
                    RsdtConfig,
                    Error,
                >(config),
                root_decodes(resolved.root, mem, located.0, located.1),
                resolved.version == located.1,
                resolved.config == config,
                resolved.cursor == 0,
                scan_tables(mem, config, 0, Seq::empty()) == scan_tables(
                    mem,
                    config,
                    i as int,
                    acpi@.ids,
                ),
            decreases config.num_entries - i,
        {
            let table = read_table_pointer(mem, &config, i);
            match acpi.parse_table(mem, table) {
                Ok(()) => {},
                Err(e) => {
                    return Err(e);
                },
            }
            i = i + 1;
        }
        Ok(acpi)
    }
}

} // verus!
