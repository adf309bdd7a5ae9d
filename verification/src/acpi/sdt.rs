//! Reading and validating System Description Tables.

use vstd::prelude::*;

use crate::acpi::checksum::{checksum_ok, region_sum};
use crate::acpi::{Error, SDTHeader};
use crate::mem::PhysMemory;

verus! {

/// The length that the table at `addr` declares for itself, header included.
pub open spec fn table_len(mem: &PhysMemory, addr: int) -> u32 {
    mem.u32_at(addr + 4)
}

/// The signature of the table at `addr`, its four bytes read as one
/// little-endian number.
pub open spec fn table_signature(mem: &PhysMemory, addr: int) -> u32 {
    mem.u32_at(addr)
}

/// Whether the table at `addr`, over its declared length, sums to zero.
pub open spec fn table_checksum_ok(mem: &PhysMemory, addr: int) -> bool {
    checksum_ok(mem, addr, table_len(mem, addr) as nat)
}

impl SDTHeader {
    /// Whether this value is what the 36 bytes at `addr` spell.
    pub open spec fn decodes(&self, mem: &PhysMemory, addr: int) -> bool {
        &&& self.signature@ == mem.bytes_at(addr, 4)
        &&& self.length == mem.u32_at(addr + 4)
        &&& self.revision == mem.byte_at(addr + 8)
        &&& self.checksum == mem.byte_at(addr + 9)
        &&& self.oem_id@ == mem.bytes_at(addr + 10, 6)
        &&& self.oem_table_id@ == mem.bytes_at(addr + 16, 8)
        &&& self.oem_revision == mem.u32_at(addr + 24)
        &&& self.creator_id == mem.u32_at(addr + 28)
        &&& self.creator_revision == mem.u32_at(addr + 32)
    }

    /// The four signature bytes as one little-endian number.
    pub open spec fn signature_word(&self) -> u32 {
        (self.signature@[0] + self.signature@[1] * 0x100 + self.signature@[2] * 0x1_0000
            + self.signature@[3] * 0x100_0000) as u32
    }

    /// Decodes the header at `addr` without validating anything.
    pub fn read(mem: &PhysMemory, addr: u64) -> (h: SDTHeader)
        ensures
            h.decodes(mem, addr as int),
    {
        let signature: [u8; 4] = [
            mem.read_at(addr, 0),
            mem.read_at(addr, 1),
            mem.read_at(addr, 2),
            mem.read_at(addr, 3),
        ];
        let oem_id: [u8; 6] = [
            mem.read_at(addr, 10),
            mem.read_at(addr, 11),
            mem.read_at(addr, 12),
            mem.read_at(addr, 13),
            mem.read_at(addr, 14),
            mem.read_at(addr, 15),
        ];
        let oem_table_id: [u8; 8] = [
            mem.read_at(addr, 16),
            mem.read_at(addr, 17),
            mem.read_at(addr, 18),
            mem.read_at(addr, 19),
            mem.read_at(addr, 20),
            mem.read_at(addr, 21),
            mem.read_at(addr, 22),
            mem.read_at(addr, 23),
        ];
        let h = SDTHeader {
            signature,
            length: mem.read_u32_at(addr, 4),
            revision: mem.read_at(addr, 8),
            checksum: mem.read_at(addr, 9),
            oem_id,
            oem_table_id,
            oem_revision: mem.read_u32_at(addr, 24),
            creator_id: mem.read_u32_at(addr, 28),
            creator_revision: mem.read_u32_at(addr, 32),
        };
        assert(h.signature@ =~= mem.bytes_at(addr as int, 4));
        assert(h.oem_id@ =~= mem.bytes_at(addr + 10, 6));
        assert(h.oem_table_id@ =~= mem.bytes_at(addr + 16, 8));
        h
    }

    /// Reads the table header at `addr` and checks that the whole table, over
    /// the length the header declares, sums to zero.
    pub fn new(mem: &PhysMemory, addr: u64) -> (r: Result<SDTHeader, Error>)
        ensures
            table_checksum_ok(mem, addr as int) ==> r is Ok && r->Ok_0.decodes(mem, addr as int),
            !table_checksum_ok(mem, addr as int) ==> r == Err::<SDTHeader, Error>(Error::SDTChecksum),
    {
        let header = SDTHeader::read(mem, addr);
        let sum = region_sum(mem, addr, header.length);
        if sum != 0 {
            return Err(Error::SDTChecksum);
        }
        Ok(header)
    }

    /// Whether the signature, read as one little-endian number, is `word`.
    pub fn has_signature(&self, word: u32) -> (b: bool)
        ensures
            b == (self.signature_word() == word),
    {
        let b0 = self.signature[0] as u32;
        let b1 = self.signature[1] as u32;
        let b2 = self.signature[2] as u32;
        let b3 = self.signature[3] as u32;
        b0 + b1 * 0x100 + b2 * 0x1_0000 + b3 * 0x100_0000 == word
    }

    /// A header decoded at `addr` carries the signature found there.
    pub proof fn lemma_signature_word(&self, mem: &PhysMemory, addr: int)
        requires
            self.decodes(mem, addr),
        ensures
            self.signature_word() == table_signature(mem, addr),
    {
        let bytes = mem.bytes_at(addr, 4);
        assert(bytes[0] == mem.byte_at(addr + 0));
        assert(bytes[1] == mem.byte_at(addr + 1));
        assert(bytes[2] == mem.byte_at(addr + 2));
        assert(bytes[3] == mem.byte_at(addr + 3));
    }
}

} // verus!
