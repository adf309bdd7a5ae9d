//! Decoding of the Multiple APIC Description Table.
//!
//! After its header the table is a run of entries, each starting with a type
//! byte and a length byte. Two types name processors; every other type is
//! stepped over by its length.

use vstd::prelude::*;

use crate::acpi::{Discovery, Error, ParsedACPI, MADT_FIELDS_SIZE, MAX_CORES};
use crate::mem::PhysMemory;

verus! {

/// Entry type of a Processor Local APIC.
pub const LOCAL_APIC: u8 = 0;

/// Entry type of a Processor Local x2APIC.
pub const LOCAL_X2APIC: u8 = 9;

/// The one length a Processor Local APIC entry may have.
pub const LOCAL_APIC_LEN: u8 = 8;

/// The one length a Processor Local x2APIC entry may have.
pub const LOCAL_X2APIC_LEN: u8 = 16;

/// Flag bit 0: the processor is ready for use.
pub const PROCESSOR_ENABLED: u32 = 1;

/// Flag bit 1: the processor can be brought online.
pub const ONLINE_CAPABLE: u32 = 2;

/// What one entry says, going by its type, length and flags.
#[derive(Debug, Clone, Copy, PartialEq, Eq, Structural)]
pub enum EntryKind {
    /// A processor that is enabled or can be enabled, with its APIC id.
    Processor(u32),
    /// A processor entry of the right length with neither flag set.
    Disabled,
    /// An entry of a type that is not decoded.
    Other,
    /// A processor entry of the wrong length.
    BadLength(Error),
}

/// Whether the flags of a processor entry allow the processor to be woken.
pub open spec fn usable(flags: u32) -> bool {
    flags & PROCESSOR_ENABLED != 0 || flags & ONLINE_CAPABLE != 0
}

/// What the entry at `ptr` says.
pub open spec fn entry_kind(mem: &PhysMemory, ptr: int) -> EntryKind {
    let entry_type = mem.byte_at(ptr);
    let entry_len = mem.byte_at(ptr + 1);
    if entry_type == LOCAL_APIC {
        if entry_len != LOCAL_APIC_LEN {
            EntryKind::BadLength(Error::InvalidAPICEntrySize)
        } else if usable(mem.u32_at(ptr + 4)) {
            EntryKind::Processor(mem.byte_at(ptr + 3) as u32)
        } else {
            EntryKind::Disabled
        }
    } else if entry_type == LOCAL_X2APIC {
        if entry_len != LOCAL_X2APIC_LEN {
            EntryKind::BadLength(Error::Invalidx2APICEntrySize)
        } else if usable(mem.u32_at(ptr + 8)) {
            EntryKind::Processor(mem.u32_at(ptr + 4))
        } else {
            EntryKind::Disabled
        }
    } else {
        EntryKind::Other
    }
}

/// Where a walk over entries ended: the processors recorded by then, and the
/// error that stopped it, if one did.
pub struct Walk {
    pub ids: Seq<u32>,
    pub error: Option<Error>,
}

impl Walk {
    /// The walk as a result: the error that stopped it, or success.
    pub open spec fn result(self) -> Result<(), Error> {
        match self.error {
            Some(e) => Err(e),
            None => Ok(()),
        }
    }
}

/// Walks the entries in `[ptr, end)`, starting with `ids` already recorded.
///
/// The walk ends without error where fewer than two bytes are left, where an
/// entry's length reaches past `end`, and at an undecoded entry of length
/// zero, which leads nowhere. It fails at a processor entry of the wrong
/// length, and at a usable processor when `MAX_CORES` are recorded already.
pub open spec fn walk_entries(mem: &PhysMemory, ptr: int, end: int, ids: Seq<u32>) -> Walk
    decreases end - ptr,
{
    let entry_len = mem.byte_at(ptr + 1) as int;
    if ptr + 2 > end || ptr + entry_len > end {
        Walk { ids, error: None }
    } else {
        match entry_kind(mem, ptr) {
            EntryKind::BadLength(e) => Walk { ids, error: Some(e) },
            EntryKind::Processor(id) => if ids.len() >= MAX_CORES {
                Walk { ids, error: Some(Error::TooManyCores) }
            } else {
                walk_entries(mem, ptr + entry_len, end, ids.push(id))
            },
            EntryKind::Disabled => walk_entries(mem, ptr + entry_len, end, ids),
            EntryKind::Other => if entry_len == 0 {
                Walk { ids, error: None }
            } else {
                walk_entries(mem, ptr + entry_len, end, ids)
            },
        }
    }
}

/// Decodes the entry at `ptr`.
pub fn read_entry(mem: &PhysMemory, ptr: u64) -> (kind: EntryKind)
    ensures
        kind == entry_kind(mem, ptr as int),
{
    let entry_type = mem.read_u8(ptr);
    let entry_len = mem.read_at(ptr, 1);
    if entry_type == LOCAL_APIC {
        if entry_len != LOCAL_APIC_LEN {
            return EntryKind::BadLength(Error::InvalidAPICEntrySize);
        }
        let apic_id = mem.read_at(ptr, 3);
        let flags = mem.read_u32_at(ptr, 4);
        if (flags & PROCESSOR_ENABLED) != 0 || (flags & ONLINE_CAPABLE) != 0 {
            EntryKind::Processor(apic_id as u32)
        } else {
            EntryKind::Disabled
        }
    } else if entry_type == LOCAL_X2APIC {
        if entry_len != LOCAL_X2APIC_LEN {
            return EntryKind::BadLength(Error::Invalidx2APICEntrySize);
        }
        let apic_id = mem.read_u32_at(ptr, 4);
        let flags = mem.read_u32_at(ptr, 8);
        if (flags & PROCESSOR_ENABLED) != 0 || (flags & ONLINE_CAPABLE) != 0 {
            EntryKind::Processor(apic_id)
        } else {
            EntryKind::Disabled
        }
    } else {
        EntryKind::Other
    }
}

impl ParsedACPI {
    /// Decodes the MADT whose payload lies in `[start_addr, end_addr)` and
    /// records its usable processors after those already recorded.
    ///
    /// The payload starts with the 8 bytes of local APIC address and flags;
    /// the entries follow. On an error the processors recorded before it stay
    /// recorded.
    pub fn parse_madt(&mut self, mem: &PhysMemory, start_addr: u64, end_addr: u64) -> (r: Result<
        (),
        Error,
    >)
        requires
            old(self).wf(),
        ensures
            final(self).wf(),
            final(self)@ == (Discovery {
                ids: walk_entries(
                    mem,
                    start_addr + MADT_FIELDS_SIZE,
                    end_addr as int,
                    old(self)@.ids,
                ).ids,
                ..old(self)@
            }),
            r == walk_entries(
                mem,
                start_addr + MADT_FIELDS_SIZE,
                end_addr as int,
                old(self)@.ids,
            ).result(),
    {
        let ghost whole = walk_entries(
            mem,
            start_addr + MADT_FIELDS_SIZE,
            end_addr as int,
            self@.ids,
        );
        let mut records_ptr: u64 = match start_addr.checked_add(MADT_FIELDS_SIZE) {
            Some(p) => p,
            None => {
                return Ok(());
            },
        };
        loop
            invariant
                self.wf(),
                self@ == (Discovery { ids: self@.ids, ..old(self)@ }),
                whole == walk_entries(
                    mem,
                    start_addr + MADT_FIELDS_SIZE,
                    end_addr as int,
                    old(self)@.ids,
                ),
                whole == walk_entries(mem, records_ptr as int, end_addr as int, self@.ids),
            decreases end_addr - records_ptr,
        {
            if end_addr < records_ptr || end_addr - records_ptr < 2 {
                return Ok(());
            }
            let entry_len = mem.read_at(records_ptr, 1);
            if end_addr - records_ptr < entry_len as u64 {
                return Ok(());
            }
            match read_entry(mem, records_ptr) {
                EntryKind::BadLength(e) => {
                    return Err(e);
                },
                EntryKind::Processor(id) => {
                    match self.record(id) {
                        Ok(()) => {},
                        Err(e) => {
                            return Err(e);
                        },
                    }
                },
                EntryKind::Disabled => {},
                EntryKind::Other => {
                    if entry_len == 0 {
                        return Ok(());
                    }
                },
            }
            records_ptr = records_ptr + entry_len as u64;
        }
    }
}

/// A processor entry with neither flag set is checked for its length and
/// then passed over: with the right length the walk goes on behind it with
/// the list as it was, with a wrong length the walk fails there.
pub proof fn lemma_unusable_entry_not_recorded(mem: &PhysMemory, ptr: int, end: int, ids: Seq<u32>)
    requires
        ptr + 2 <= end,
        ptr + mem.byte_at(ptr + 1) <= end,
        mem.byte_at(ptr) == LOCAL_APIC && !usable(mem.u32_at(ptr + 4)) || mem.byte_at(ptr)
            == LOCAL_X2APIC && !usable(mem.u32_at(ptr + 8)),
    ensures
        walk_entries(mem, ptr, end, ids) == match entry_kind(mem, ptr) {
            EntryKind::BadLength(e) => Walk { ids, error: Some(e) },
            _ => walk_entries(mem, ptr + mem.byte_at(ptr + 1), end, ids),
        },
        !(entry_kind(mem, ptr) is Processor),
        entry_kind(mem, ptr) is BadLength <==> mem.byte_at(ptr + 1) != (if mem.byte_at(ptr)
            == LOCAL_APIC {
            LOCAL_APIC_LEN
        } else {
            LOCAL_X2APIC_LEN
        }),
{
}

/// A usable processor is recorded while there is room, and refused with
/// `TooManyCores` once `MAX_CORES` are recorded; the list then stays as it
/// was.
pub proof fn lemma_usable_entry_recorded(mem: &PhysMemory, ptr: int, end: int, ids: Seq<u32>)
    requires
        ptr + 2 <= end,
        ptr + mem.byte_at(ptr + 1) <= end,
        entry_kind(mem, ptr) is Processor,
    ensures
        ids.len() < MAX_CORES ==> walk_entries(mem, ptr, end, ids) == walk_entries(
            mem,
            ptr + mem.byte_at(ptr + 1),
            end,
            ids.push(entry_kind(mem, ptr)->Processor_0),
        ),
        ids.len() >= MAX_CORES ==> walk_entries(mem, ptr, end, ids) == (Walk {
            ids,
            error: Some(Error::TooManyCores),
        }),
{
}

/// A walk only ever adds to the list: what was recorded before it stays
/// first, in the same order.
pub proof fn lemma_walk_extends(mem: &PhysMemory, ptr: int, end: int, ids: Seq<u32>)
    ensures
        ids.is_prefix_of(walk_entries(mem, ptr, end, ids).ids),
        ids.len() <= MAX_CORES && walk_entries(mem, ptr, end, ids).error == Some(
            Error::TooManyCores,
        ) ==> walk_entries(mem, ptr, end, ids).ids.len() == MAX_CORES,
        ids.len() <= MAX_CORES ==> walk_entries(mem, ptr, end, ids).ids.len() <= MAX_CORES,
    decreases end - ptr,
{
    let entry_len = mem.byte_at(ptr + 1) as int;
    if ptr + 2 > end || ptr + entry_len > end {
    } else {
        match entry_kind(mem, ptr) {
            EntryKind::BadLength(_) => {},
            EntryKind::Processor(id) => {
                if ids.len() < MAX_CORES {
                    lemma_walk_extends(mem, ptr + entry_len, end, ids.push(id));
                }
            },
            EntryKind::Disabled => {
                lemma_walk_extends(mem, ptr + entry_len, end, ids);
            },
            EntryKind::Other => {
                if entry_len != 0 {
                    lemma_walk_extends(mem, ptr + entry_len, end, ids);
                }
            },
        }
    }
}

} // verus!
