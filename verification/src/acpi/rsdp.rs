//! Locating and validating the Root System Description Pointer.
//!
//! The pointer lies on a 16-byte boundary, either in the first KiB of the
//! Extended BIOS Data Area or in the BIOS area below 1 MiB. The locations are
//! tried in that order, and the first one that carries the signature is the
//! one that counts.

use either::Either;
use vstd::prelude::*;

use crate::acpi::checksum::{checksum_ok, region_sum};
use crate::acpi::{Discovery, Error, ParsedACPI, Rsdp, RsdpExtended, RSDP_SIZE};
use crate::mem::PhysMemory;

verus! {

/// `RSD PTR `, read as one little-endian number.
pub const RSDP_SIGNATURE: u64 = 0x2052_5450_2044_5352;

/// Where the BIOS keeps the segment of the Extended BIOS Data Area.
pub const EBDA_POINTER: u64 = 0x40E;

/// Locations tried in the Extended BIOS Data Area: its first KiB.
pub const EBDA_SLOTS: u64 = 64;

/// First address of the BIOS area that is searched.
pub const LEGACY_START: u64 = 0xE_0000;

/// The address that ends the search of the BIOS area.
pub const LEGACY_END: u64 = 0xF_FFFF;

/// Locations tried in all: 64 in the Extended BIOS Data Area, then one every
/// 16 bytes from `LEGACY_START` up to `LEGACY_END`.
pub const SLOTS: u64 = 8256;

/// Distance between two locations.
pub const SLOT_SIZE: u64 = 16;

/// Offset of the revision byte in the root pointer.
pub const REVISION_OFFSET: u64 = 15;

/// Physical address of the Extended BIOS Data Area: its segment times 16,
/// which is a multiple of 16.
pub open spec fn ebda_base(mem: &PhysMemory) -> int {
    mem.u16_at(EBDA_POINTER as int) * 16
}

/// The `k`-th location that is tried.
pub open spec fn candidate(mem: &PhysMemory, k: int) -> int {
    if k < EBDA_SLOTS {
        ebda_base(mem) + SLOT_SIZE * k
    } else {
        LEGACY_START + SLOT_SIZE * (k - EBDA_SLOTS)
    }
}

/// Whether the eight bytes at `addr` are the root pointer's signature.
pub open spec fn signed(mem: &PhysMemory, addr: int) -> bool {
    mem.u64_at(addr) == RSDP_SIGNATURE
}

/// The first location from the `k`-th on that carries the signature.
pub open spec fn first_signed(mem: &PhysMemory, k: int) -> Option<int>
    decreases SLOTS - k,
{
    if k >= SLOTS {
        None
    } else if signed(mem, candidate(mem, k)) {
        Some(candidate(mem, k))
    } else {
        first_signed(mem, k + 1)
    }
}

/// How many bytes the extended root pointer at `addr` has after its first
/// 20, going by the length it declares.
pub open spec fn extended_len(mem: &PhysMemory, addr: int) -> nat {
    let declared = mem.u32_at(addr + RSDP_SIZE);
    if declared >= RSDP_SIZE {
        (declared - RSDP_SIZE) as nat
    } else {
        0
    }
}

/// Where the root pointer lies and which revision it has, or why there is
/// none.
///
/// At the first location that carries the signature, the first 20 bytes must
/// sum to zero. Revision 0 is then accepted as it is; revision 2 also needs
/// the bytes from the 20th to the declared length to sum to zero; any other
/// revision is refused.
pub open spec fn locate(mem: &PhysMemory) -> Result<(int, usize), Error> {
    match first_signed(mem, 0) {
        None => Err(Error::RSDPSignatureNotFound),
        Some(addr) => {
            let revision = mem.byte_at(addr + REVISION_OFFSET);
            if !checksum_ok(mem, addr, RSDP_SIZE as nat) {
                Err(Error::RSDPChecksum)
            } else if revision == 0 {
                Ok((addr, 0usize))
            } else if revision == 2 {
                if !checksum_ok(mem, addr + RSDP_SIZE, extended_len(mem, addr)) {
                    Err(Error::RSDPExtendedChecksum)
                } else {
                    Ok((addr, 2usize))
                }
            } else {
                Err(Error::InvalidVersion)
            }
        },
    }
}

/// Whether `root` is the root pointer of revision `version` at `addr`.
pub open spec fn root_decodes(
    root: Either<Rsdp, RsdpExtended>,
    mem: &PhysMemory,
    addr: int,
    version: usize,
) -> bool {
    match root {
        Either::Left(rsdp) => version == 0 && rsdp.decodes(mem, addr),
        Either::Right(extended) => version == 2 && extended.decodes(mem, addr),
    }
}

/// No location before the `k`-th carries the signature exactly when the
/// search from the start and the search from the `k`-th agree.
pub proof fn lemma_first_signed_skips(mem: &PhysMemory, k: int)
    requires
        0 <= k <= SLOTS,
        forall|j: int| 0 <= j < k ==> !signed(mem, #[trigger] candidate(mem, j)),
    ensures
        first_signed(mem, 0) == first_signed(mem, k),
    decreases k,
{
    if k > 0 {
        lemma_first_signed_skips(mem, k - 1);
    }
}

/// Reads the address of the Extended BIOS Data Area.
pub fn read_ebda_base(mem: &PhysMemory) -> (base: u64)
    ensures
        base == ebda_base(mem),
{
    let segment = mem.read_u16(EBDA_POINTER) as u64;
    let scaled = segment * 16;
    assert(scaled & !0xfu64 == scaled) by (bit_vector)
        requires
            scaled % 16 == 0,
    ;
    scaled & !0xf
}

/// Finds the first location that carries the signature.
pub fn find_signature(mem: &PhysMemory) -> (r: Option<u64>)
    ensures
        match first_signed(mem, 0) {
            Some(addr) => r == Some(addr as u64) && 0 <= addr < 0x20_0000,
            None => r.is_none(),
        },
{
    let ebda = read_ebda_base(mem);
    let mut k: u64 = 0;
    while k < SLOTS
        invariant
            k <= SLOTS,
            ebda == ebda_base(mem),
            first_signed(mem, 0) == first_signed(mem, k as int),
        decreases SLOTS - k,
    {
        let addr = if k < EBDA_SLOTS {
            ebda + SLOT_SIZE * k
        } else {
            LEGACY_START + SLOT_SIZE * (k - EBDA_SLOTS)
        };
        if mem.read_u64(addr) == RSDP_SIGNATURE {
            return Some(addr);
        }
        k = k + 1;
    }
    None
}

impl ParsedACPI {
    /// Finds the root pointer, validates it, and stores it with its version.
    /// On an error nothing changes.
    pub fn parse_rsdp(&mut self, mem: &PhysMemory) -> (r: Result<(), Error>)
        requires
            old(self).wf(),
        ensures
            final(self).wf(),
            match locate(mem) {
                Ok((addr, version)) => {
                    &&& r == Ok::<(), Error>(())
                    &&& root_decodes(final(self)@.root, mem, addr, version)
                    &&& final(self)@ == (Discovery { version, root: final(self)@.root, ..old(self)@ })
                },
                Err(e) => r == Err::<(), Error>(e) && final(self)@ == old(self)@,
            },
    {
        let addr = match find_signature(mem) {
            Some(a) => a,
            None => {
                return Err(Error::RSDPSignatureNotFound);
            },
        };
        if region_sum(mem, addr, RSDP_SIZE as u32) != 0 {
            return Err(Error::RSDPChecksum);
        }
        let revision = mem.read_at(addr, REVISION_OFFSET);
        if revision == 0 {
            self.set_root(Either::Left(Rsdp::read(mem, addr)));
            Ok(())
        } else if revision == 2 {
            let extended = RsdpExtended::read(mem, addr);
            let rest: u32 = if extended.length >= RSDP_SIZE as u32 {
                extended.length - RSDP_SIZE as u32
            } else {
                0
            };
            if region_sum(mem, addr + RSDP_SIZE, rest) != 0 {
                return Err(Error::RSDPExtendedChecksum);
            }
            self.set_root(Either::Right(extended));
            Ok(())
        } else {
            Err(Error::InvalidVersion)
        }
    }
}

/// A root pointer at the first location that carries the signature is
/// accepted when its first 20 bytes sum to zero and its revision is 0, or
/// its revision is 2 and its extended part sums to zero as well.
pub proof fn lemma_valid_rsdp_accepted(mem: &PhysMemory, k: int)
    requires
        0 <= k < SLOTS,
        forall|j: int| 0 <= j < k ==> !signed(mem, #[trigger] candidate(mem, j)),
        signed(mem, candidate(mem, k)),
        checksum_ok(mem, candidate(mem, k), RSDP_SIZE as nat),
        mem.byte_at(candidate(mem, k) + REVISION_OFFSET) == 0 || (mem.byte_at(
            candidate(mem, k) + REVISION_OFFSET,
        ) == 2 && checksum_ok(
            mem,
            candidate(mem, k) + RSDP_SIZE,
            extended_len(mem, candidate(mem, k)),
        )),
    ensures
        locate(mem) == Ok::<(int, usize), Error>(
            (candidate(mem, k), mem.byte_at(candidate(mem, k) + REVISION_OFFSET) as usize),
        ),
{
    lemma_first_signed_skips(mem, k);
}

/// Where no location carries the signature, no root pointer is found.
pub proof fn lemma_unsigned_not_found(mem: &PhysMemory)
    requires
        forall|j: int| 0 <= j < SLOTS ==> !signed(mem, #[trigger] candidate(mem, j)),
    ensures
        locate(mem) == Err::<(int, usize), Error>(Error::RSDPSignatureNotFound),
{
    lemma_first_signed_skips(mem, SLOTS as int);
}

/// Changing one of the first 20 bytes of an accepted root pointer makes its
/// checksum fail, as long as the changed image still has its first
/// signature at the same location.
pub proof fn lemma_changed_byte_rejected(mem: &PhysMemory, changed: &PhysMemory, at: int)
    requires
        locate(mem) is Ok,
        locate(mem)->Ok_0.0 <= at < locate(mem)->Ok_0.0 + RSDP_SIZE,
        changed.byte_at(at) != mem.byte_at(at),
        forall|p: int| p != at ==> changed.byte_at(p) == mem.byte_at(p),
        first_signed(changed, 0) == first_signed(mem, 0),
    ensures
        locate(changed) == Err::<(int, usize), Error>(Error::RSDPChecksum),
{
    let addr = locate(mem)->Ok_0.0;
    crate::acpi::checksum::lemma_sum_one_byte(mem, changed, addr, RSDP_SIZE as nat, at);
}

/// Changing one byte of the extended part of an accepted root pointer of
/// revision 2 makes its extended checksum fail, as long as the declared
/// length stays what it was.
pub proof fn lemma_changed_extended_byte_rejected(mem: &PhysMemory, changed: &PhysMemory, at: int)
    requires
        locate(mem) is Ok,
        locate(mem)->Ok_0.1 == 2,
        locate(mem)->Ok_0.0 + RSDP_SIZE <= at < locate(mem)->Ok_0.0 + RSDP_SIZE + extended_len(
            mem,
            locate(mem)->Ok_0.0,
        ),
        changed.byte_at(at) != mem.byte_at(at),
        forall|p: int| p != at ==> changed.byte_at(p) == mem.byte_at(p),
        first_signed(changed, 0) == first_signed(mem, 0),
        extended_len(changed, locate(mem)->Ok_0.0) == extended_len(mem, locate(mem)->Ok_0.0),
    ensures
        locate(changed) == Err::<(int, usize), Error>(Error::RSDPExtendedChecksum),
{
    let addr = locate(mem)->Ok_0.0;
    crate::acpi::checksum::lemma_sum_agrees(mem, changed, addr, RSDP_SIZE as nat);
    crate::acpi::checksum::lemma_sum_one_byte(
        mem,
        changed,
        addr + RSDP_SIZE,
        extended_len(mem, addr),
        at,
    );
}

/// The locations tried are the 16-byte steps of the first KiB of the
/// Extended BIOS Data Area, then those of the BIOS area from `LEGACY_START`
/// up to `LEGACY_END`, and no others.
pub proof fn lemma_candidates_cover_both_areas(mem: &PhysMemory, k: int)
    requires
        0 <= k < SLOTS,
    ensures
        candidate(mem, k) % 16 == 0,
        k < EBDA_SLOTS ==> ebda_base(mem) <= candidate(mem, k) < ebda_base(mem) + 1024,
        k >= EBDA_SLOTS ==> LEGACY_START <= candidate(mem, k) < LEGACY_END,
        candidate(mem, EBDA_SLOTS as int) == LEGACY_START,
        candidate(mem, SLOTS as int) >= LEGACY_END,
        candidate(mem, EBDA_SLOTS as int - 1) + SLOT_SIZE == ebda_base(mem) + 1024,
{
}

/// The location found, if any, is one of those tried.
pub proof fn lemma_found_is_candidate(mem: &PhysMemory, k: int) -> (slot: int)
    requires
        0 <= k <= SLOTS,
        first_signed(mem, k) is Some,
    ensures
        k <= slot < SLOTS,
        first_signed(mem, k) == Some(candidate(mem, slot)),
        signed(mem, candidate(mem, slot)),
    decreases SLOTS - k,
{
    if signed(mem, candidate(mem, k)) {
        k
    } else {
        lemma_found_is_candidate(mem, k + 1)
    }
}

/// Two images in which the same locations carry the signature give the
/// same location.
pub proof fn lemma_same_search(mem: &PhysMemory, other: &PhysMemory, k: int)
    requires
        0 <= k <= SLOTS,
        ebda_base(mem) == ebda_base(other),
        forall|j: int|
            k <= j < SLOTS ==> signed(mem, #[trigger] candidate(mem, j)) == signed(
                other,
                candidate(mem, j),
            ),
    ensures
        first_signed(mem, k) == first_signed(other, k),
    decreases SLOTS - k,
{
    if k < SLOTS {
        assert(candidate(other, k) == candidate(mem, k));
        if !signed(mem, candidate(mem, k)) {
            lemma_same_search(mem, other, k + 1);
        }
    }
}

/// Whether `changed` shows the same byte as `mem` at every address but `at`.
#[verifier::opaque]
pub open spec fn differs_only_at(mem: &PhysMemory, changed: &PhysMemory, at: int) -> bool {
    forall|p: int| p != at ==> changed.byte_at(p) == mem.byte_at(p)
}

/// A change to one byte outside the eight at `addr` leaves the signature
/// at `addr` as it was.
pub proof fn lemma_signature_unchanged(mem: &PhysMemory, changed: &PhysMemory, at: int, addr: int)
    requires
        at < addr || at >= addr + 8,
        differs_only_at(mem, changed, at),
    ensures
        signed(changed, addr) == signed(mem, addr),
{
    reveal(differs_only_at);
}

/// A change to a byte other than the two at `EBDA_POINTER` leaves the
/// Extended BIOS Data Area where it was.
pub proof fn lemma_ebda_unchanged(mem: &PhysMemory, changed: &PhysMemory, at: int)
    requires
        at != EBDA_POINTER,
        at != EBDA_POINTER + 1,
        differs_only_at(mem, changed, at),
    ensures
        ebda_base(changed) == ebda_base(mem),
{
    reveal(differs_only_at);
}

/// Bytes 8 to 15 behind one multiple of 16 are not among bytes 0 to 7 behind
/// another.
pub proof fn lemma_body_is_no_signature(addr: int, other: int, at: int)
    requires
        addr % 16 == 0,
        other % 16 == 0,
        addr + 8 <= at < addr + 16,
    ensures
        at < other || at >= other + 8,
{
}

/// A change to one of the bytes 8 to 15 of the root pointer, which hold its
/// checksum, OEM id and revision, leaves the location found where it was,
/// unless the byte is one of the two that hold the segment of the Extended
/// BIOS Data Area.
pub proof fn lemma_body_byte_keeps_location(mem: &PhysMemory, changed: &PhysMemory, at: int)
    requires
        first_signed(mem, 0) is Some,
        first_signed(mem, 0)->Some_0 + 8 <= at < first_signed(mem, 0)->Some_0 + 16,
        at != EBDA_POINTER,
        at != EBDA_POINTER + 1,
        forall|p: int| p != at ==> changed.byte_at(p) == mem.byte_at(p),
    ensures
        first_signed(changed, 0) == first_signed(mem, 0),
{
    assert(differs_only_at(mem, changed, at)) by {
        reveal(differs_only_at);
    }
    lemma_body_byte_keeps_search(mem, changed, at);
}

/// The same, with the change stated through `differs_only_at`.
proof fn lemma_body_byte_keeps_search(mem: &PhysMemory, changed: &PhysMemory, at: int)
    requires
        first_signed(mem, 0) is Some,
        first_signed(mem, 0)->Some_0 + 8 <= at < first_signed(mem, 0)->Some_0 + 16,
        at != EBDA_POINTER,
        at != EBDA_POINTER + 1,
        differs_only_at(mem, changed, at),
    ensures
        first_signed(changed, 0) == first_signed(mem, 0),
{
    let addr = first_signed(mem, 0)->Some_0;
    let slot = lemma_found_is_candidate(mem, 0);
    lemma_candidates_cover_both_areas(mem, slot);
    lemma_ebda_unchanged(mem, changed, at);
    assert forall|j: int| 0 <= j < SLOTS implies signed(mem, #[trigger] candidate(mem, j)) == signed(
        changed,
        candidate(mem, j),
    ) by {
        lemma_candidates_cover_both_areas(mem, j);
        lemma_body_is_no_signature(addr, candidate(mem, j), at);
        lemma_signature_unchanged(mem, changed, at, candidate(mem, j));
    }
    lemma_same_search(mem, changed, 0);
}

/// Changing the checksum, a byte of the OEM id or the revision of an
/// accepted root pointer makes its checksum fail, wherever the pointer lies,
/// unless the byte is one of the two that hold the segment of the Extended
/// BIOS Data Area.
pub proof fn lemma_changed_body_byte_rejected(mem: &PhysMemory, changed: &PhysMemory, at: int)
    requires
        locate(mem) is Ok,
        locate(mem)->Ok_0.0 + 8 <= at < locate(mem)->Ok_0.0 + 16,
        at != EBDA_POINTER,
        at != EBDA_POINTER + 1,
        changed.byte_at(at) != mem.byte_at(at),
        forall|p: int| p != at ==> changed.byte_at(p) == mem.byte_at(p),
    ensures
        locate(changed) == Err::<(int, usize), Error>(Error::RSDPChecksum),
{
    lemma_body_byte_keeps_location(mem, changed, at);
    lemma_changed_byte_rejected(mem, changed, at);
}

} // verus!
