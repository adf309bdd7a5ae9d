//! Byte sums over regions of memory.
//!
//! Every ACPI structure carries a checksum byte chosen so that all its bytes
//! add up to zero modulo 256.

use vstd::prelude::*;

use crate::mem::{PhysMemory, PHYS_LIMIT};

verus! {

/// The sum of the `len` bytes starting at `addr`.
pub open spec fn sum_bytes(mem: &PhysMemory, addr: int, len: nat) -> int
    decreases len,
{
    if len == 0 {
        0
    } else {
        sum_bytes(mem, addr, (len - 1) as nat) + mem.byte_at(addr + len - 1)
    }
}

/// Whether the `len` bytes starting at `addr` add up to zero modulo 256.
pub open spec fn checksum_ok(mem: &PhysMemory, addr: int, len: nat) -> bool {
    sum_bytes(mem, addr, len) % 256 == 0
}

/// A region in which every byte is zero sums to zero.
pub proof fn lemma_sum_of_zeros(mem: &PhysMemory, addr: int, len: nat)
    requires
        forall|p: int| addr <= p < addr + len ==> mem.byte_at(p) == 0,
    ensures
        sum_bytes(mem, addr, len) == 0,
    decreases len,
{
    if len > 0 {
        lemma_sum_of_zeros(mem, addr, (len - 1) as nat);
    }
}

/// Two images that agree on a region give it the same sum.
pub proof fn lemma_sum_agrees(a: &PhysMemory, b: &PhysMemory, addr: int, len: nat)
    requires
        forall|p: int| addr <= p < addr + len ==> a.byte_at(p) == b.byte_at(p),
    ensures
        sum_bytes(a, addr, len) == sum_bytes(b, addr, len),
    decreases len,
{
    if len > 0 {
        lemma_sum_agrees(a, b, addr, (len - 1) as nat);
    }
}

/// Where two images differ in one byte of a region and agree on the rest of
/// it, the region's sums differ by what that byte differs by.
pub proof fn lemma_sum_one_byte(a: &PhysMemory, b: &PhysMemory, addr: int, len: nat, at: int)
    requires
        addr <= at < addr + len,
        forall|p: int| addr <= p < addr + len && p != at ==> a.byte_at(p) == b.byte_at(p),
    ensures
        sum_bytes(b, addr, len) - sum_bytes(a, addr, len) == b.byte_at(at) - a.byte_at(at),
    decreases len,
{
    if at == addr + len - 1 {
        lemma_sum_agrees(a, b, addr, (len - 1) as nat);
    } else {
        lemma_sum_one_byte(a, b, addr, (len - 1) as nat, at);
    }
}

/// Adds up the `len` bytes starting at `addr`, modulo 256.
pub fn region_sum(mem: &PhysMemory, addr: u64, len: u32) -> (sum: u8)
    ensures
        sum == sum_bytes(mem, addr as int, len as nat) % 256,
{
    if addr >= PHYS_LIMIT {
        proof {
            lemma_sum_of_zeros(mem, addr as int, len as nat);
        }
        return 0;
    }
    let mut acc: u8 = 0;
    let mut i: u32 = 0;
    while i < len
        invariant
            addr < PHYS_LIMIT,
            i <= len,
            acc == sum_bytes(mem, addr as int, i as nat) % 256,
        decreases len - i,
    {
        let byte = mem.read_u8(addr + i as u64);
        acc = ((acc as u16 + byte as u16) % 256) as u8;
        i = i + 1;
    }
    acc
}

} // verus!
