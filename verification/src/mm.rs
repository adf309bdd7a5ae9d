//! The memory map that the firmware reports, and the allocator that will one
//! day be built on it.

use vstd::prelude::*;

verus! {

/// Most entries that a memory map handed over at boot may hold.
pub const MAX_LAYOUT_ENTRIES: usize = 32;

/// Most free regions that the allocator keeps.
pub const MAX_FREE_REGIONS: usize = 50;

/// One entry of the firmware's memory map.
#[derive(Debug, Clone, Copy)]
pub struct E820Entry {
    pub base: u64,
    pub length: u64,
    pub typ: u32,
}

impl Default for E820Entry {
    /// The empty entry.
    fn default() -> (e: E820Entry)
        ensures
            e.base == 0,
            e.length == 0,
            e.typ == 0,
    {
        E820Entry { base: 0, length: 0, typ: 0 }
    }
}

/// The memory map as the earlier boot stage hands it over.
#[derive(Debug, Clone, Copy)]
pub struct MemLayout {
    pub num_entries: u64,
    pub mem_layout: [E820Entry; MAX_LAYOUT_ENTRIES],
}

impl MemLayout {
    /// Whether the count of entries is one that the map can hold.
    pub open spec fn fits(&self) -> bool {
        self.num_entries < MAX_LAYOUT_ENTRIES
    }

    /// Whether the count of entries is one that the map can hold.
    pub fn is_valid(&self) -> (b: bool)
        ensures
            b == self.fits(),
    {
        self.num_entries < MAX_LAYOUT_ENTRIES as u64
    }
}

/// The physical memory allocator.
#[derive(Debug)]
pub struct MMU {
    pub free_mem_region: [E820Entry; MAX_FREE_REGIONS],
    pub count: i32,
}

impl MMU {
    /// Sets the allocator up from the memory map at `_addr`. There is no
    /// allocator yet: the answer is always `None`.
    pub fn init(_addr: usize) -> (mmu: Option<MMU>)
        ensures
            mmu is None,
    {
        None
    }
}

} // verus!
