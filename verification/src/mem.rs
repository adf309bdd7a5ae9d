//! An image of physical memory.
//!
//! The image is a list of byte regions, each copied from some physical base
//! address. Every address has a value: an address that no region covers, or
//! that lies beyond the architectural width of a physical address, reads as
//! zero. Where regions overlap, the one mapped last is seen.

use vstd::prelude::*;

verus! {

/// One past the largest physical address: physical addresses are 52 bits wide.
pub const PHYS_LIMIT: u64 = 0x10_0000_0000_0000;

/// A run of bytes copied from physical memory, starting at `base`.
pub struct Region {
    pub base: u64,
    pub bytes: Vec<u8>,
}

impl Region {
    /// Whether `addr` falls inside this region.
    pub open spec fn covers(&self, addr: int) -> bool {
        self.base <= addr < self.base + self.bytes@.len()
    }
}

/// The byte that a list of regions shows at `addr`: that of the last region
/// covering it, zero where none does.
pub open spec fn lookup(regions: Seq<Region>, addr: int) -> u8
    decreases regions.len(),
{
    if regions.len() == 0 {
        0
    } else if regions.last().covers(addr) {
        regions.last().bytes@[addr - regions.last().base]
    } else {
        lookup(regions.drop_last(), addr)
    }
}

/// A snapshot of physical memory.
pub struct PhysMemory {
    regions: Vec<Region>,
}

impl PhysMemory {
    /// The regions mapped so far, oldest first.
    pub closed spec fn regions(&self) -> Seq<Region> {
        self.regions@
    }

    /// The byte at physical address `addr`.
    pub open spec fn byte_at(&self, addr: int) -> u8 {
        if 0 <= addr < PHYS_LIMIT {
            lookup(self.regions(), addr)
        } else {
            0
        }
    }

    /// The little-endian 16-bit value at `addr`.
    pub open spec fn u16_at(&self, addr: int) -> u16 {
        (self.byte_at(addr) + self.byte_at(addr + 1) * 0x100) as u16
    }

    /// The little-endian 32-bit value at `addr`.
    pub open spec fn u32_at(&self, addr: int) -> u32 {
        (self.byte_at(addr) + self.byte_at(addr + 1) * 0x100 + self.byte_at(addr + 2) * 0x1_0000
            + self.byte_at(addr + 3) * 0x100_0000) as u32
    }

    /// The little-endian 64-bit value at `addr`.
    pub open spec fn u64_at(&self, addr: int) -> u64 {
        (self.u32_at(addr) + self.u32_at(addr + 4) * 0x1_0000_0000) as u64
    }

    /// The `len` bytes starting at `addr`.
    pub open spec fn bytes_at(&self, addr: int, len: nat) -> Seq<u8> {
        Seq::new(len, |i: int| self.byte_at(addr + i))
    }

    /// An image with nothing mapped: every address reads as zero.
    pub fn new() -> (m: PhysMemory)
        ensures
            m.regions().len() == 0,
            forall|a: int| m.byte_at(a) == 0,
    {
        PhysMemory { regions: Vec::new() }
    }

    /// Maps `bytes` at physical address `base`, over whatever was there.
    pub fn map(&mut self, base: u64, bytes: Vec<u8>)
        ensures
            final(self).regions() == old(self).regions().push(Region { base, bytes }),
            forall|a: int|
                #![trigger final(self).byte_at(a)]
                final(self).byte_at(a) == if base <= a < base + bytes@.len() && a < PHYS_LIMIT {
                    bytes@[a - base]
                } else {
                    old(self).byte_at(a)
                },
    {
        let ghost before = self.regions@;
        let ghost region = Region { base, bytes };
        self.regions.push(Region { base, bytes });
        proof {
            assert(self.regions@.drop_last() == before);
            assert(self.regions@.last() == region);
        }
    }

    /// Reads the byte at `addr`.
    pub fn read_u8(&self, addr: u64) -> (b: u8)
        ensures
            b == self.byte_at(addr as int),
    {
        if addr >= PHYS_LIMIT {
            return 0;
        }
        let mut i: usize = self.regions.len();
        proof {
            assert(self.regions@.take(i as int) == self.regions@);
        }
        while i > 0
            invariant
                addr < PHYS_LIMIT,
                i <= self.regions.len(),
                lookup(self.regions@, addr as int) == lookup(self.regions@.take(i as int), addr as int),
            decreases i,
        {
            let region = &self.regions[i - 1];
            proof {
                let prefix = self.regions@.take(i as int);
                assert(prefix.last() == self.regions@[i - 1]);
                assert(prefix.drop_last() == self.regions@.take(i - 1));
            }
            if addr >= region.base && addr - region.base < region.bytes.len() as u64 {
                return region.bytes[(addr - region.base) as usize];
            }
            i -= 1;
        }
        proof {
            assert(self.regions@.take(0).len() == 0);
        }
        0
    }

    /// Reads the byte at `addr + offset`.
    pub fn read_at(&self, addr: u64, offset: u64) -> (b: u8)
        ensures
            b == self.byte_at(addr + offset),
    {
        match addr.checked_add(offset) {
            Some(a) => self.read_u8(a),
            None => 0,
        }
    }

    /// Reads the little-endian 16-bit value at `addr`.
    pub fn read_u16(&self, addr: u64) -> (v: u16)
        ensures
            v == self.u16_at(addr as int),
    {
        let b0 = self.read_u8(addr) as u16;
        let b1 = self.read_at(addr, 1) as u16;
        b0 + b1 * 0x100
    }

    /// Reads the little-endian 32-bit value at `addr`.
    pub fn read_u32(&self, addr: u64) -> (v: u32)
        ensures
            v == self.u32_at(addr as int),
    {
        let b0 = self.read_u8(addr) as u32;
        let b1 = self.read_at(addr, 1) as u32;
        let b2 = self.read_at(addr, 2) as u32;
        let b3 = self.read_at(addr, 3) as u32;
        b0 + b1 * 0x100 + b2 * 0x1_0000 + b3 * 0x100_0000
    }

    /// Reads the little-endian 32-bit value at `addr + offset`.
    pub fn read_u32_at(&self, addr: u64, offset: u64) -> (v: u32)
        ensures
            v == self.u32_at(addr + offset),
    {
        match addr.checked_add(offset) {
            Some(a) => self.read_u32(a),
            None => 0,
        }
    }

    /// Reads the little-endian 64-bit value at `addr`.
    pub fn read_u64(&self, addr: u64) -> (v: u64)
        ensures
            v == self.u64_at(addr as int),
    {
        let lo = self.read_u32(addr) as u64;
        let hi = self.read_u32_at(addr, 4) as u64;
        lo + hi * 0x1_0000_0000
    }
}

} // verus!
