//! Waking the application processors, one call per processor.
//!
//! The library decides what is to be done; the caller, who owns the local
//! APIC, does it. Each call moves the cursor over one processor of the list
//! and says what to do about that processor.

use vstd::prelude::*;

use crate::acpi::{Discovery, Error, ParsedACPI};

verus! {

/// Microseconds to wait after the INIT interrupt.
pub const INIT_DELAY_US: u32 = 10_000;

/// Microseconds to wait after the first Startup interrupt.
pub const STARTUP_DELAY_US: u32 = 200;

/// How far bring-up has come.
#[derive(Debug, Clone, Copy, PartialEq, Eq, Structural)]
pub enum BringUpState {
    /// Processors are left, and none has been dealt with.
    Idle,
    /// Some processors have been dealt with, and some are left.
    Advancing,
    /// No processor is left.
    Done,
}

/// What the caller is to do after one call of the sequencer.
#[derive(Debug, Clone, Copy, PartialEq, Eq, Structural)]
pub enum ApAction {
    /// Nothing: no processor was left.
    Nothing,
    /// Nothing: the caller is the bootstrap processor, which does not wake
    /// itself. The cursor has moved on all the same.
    Bootstrap,
    /// Wake the processor with this APIC id.
    Wake(u32),
}

/// One step of the wake protocol.
#[derive(Debug, Clone, Copy, PartialEq, Eq, Structural)]
pub enum IpiStep {
    /// Send an INIT interrupt to the processor with this APIC id.
    Init(u32),
    /// Send a Startup interrupt to the processor with this APIC id, carrying
    /// this startup page.
    Startup(u32, u8),
    /// Wait this many microseconds.
    Delay(u32),
}

/// The state that a cursor at `cursor` in a list of `count` stands for.
pub open spec fn state_at(cursor: nat, count: nat) -> BringUpState {
    if cursor >= count {
        BringUpState::Done
    } else if cursor == 0 {
        BringUpState::Idle
    } else {
        BringUpState::Advancing
    }
}

/// Where one call moves the cursor: on by one while processors are left.
pub open spec fn next_cursor(cursor: nat, count: nat) -> nat {
    if cursor < count {
        cursor + 1
    } else {
        cursor
    }
}

/// Where `calls` calls in a row move the cursor.
pub open spec fn cursor_after(cursor: nat, count: nat, calls: nat) -> nat
    decreases calls,
{
    if calls == 0 {
        cursor
    } else {
        next_cursor(cursor_after(cursor, count, (calls - 1) as nat), count)
    }
}

/// What one call tells the caller to do.
pub open spec fn action_at(ids: Seq<u32>, cursor: nat, is_bsp: bool) -> ApAction {
    if cursor >= ids.len() {
        ApAction::Nothing
    } else if is_bsp {
        ApAction::Bootstrap
    } else {
        ApAction::Wake(ids[cursor as int])
    }
}

/// The wake protocol for one processor: INIT, a wait, and two Startup
/// interrupts with a wait between them.
pub open spec fn wake_steps(apic_id: u32, start_page: u8) -> Seq<IpiStep> {
    seq![
        IpiStep::Init(apic_id),
        IpiStep::Delay(INIT_DELAY_US),
        IpiStep::Startup(apic_id, start_page),
        IpiStep::Delay(STARTUP_DELAY_US),
        IpiStep::Startup(apic_id, start_page),
    ]
}

/// The steps that wake the processor with APIC id `apic_id`, which is to
/// start executing at page `start_page`.
pub fn wake_sequence(apic_id: u32, start_page: u8) -> (steps: Vec<IpiStep>)
    ensures
        steps@ == wake_steps(apic_id, start_page),
{
    let mut steps: Vec<IpiStep> = Vec::new();
    steps.push(IpiStep::Init(apic_id));
    steps.push(IpiStep::Delay(INIT_DELAY_US));
    steps.push(IpiStep::Startup(apic_id, start_page));
    steps.push(IpiStep::Delay(STARTUP_DELAY_US));
    steps.push(IpiStep::Startup(apic_id, start_page));
    assert(steps@ =~= wake_steps(apic_id, start_page));
    steps
}

impl ParsedACPI {
    /// How far bring-up has come.
    pub fn state(&self) -> (s: BringUpState)
        requires
            self.wf(),
        ensures
            s == state_at(self@.cursor, self@.ids.len()),
    {
        let cursor = self.cur_apic();
        if cursor >= self.num_apics() {
            BringUpState::Done
        } else if cursor == 0 {
            BringUpState::Idle
        } else {
            BringUpState::Advancing
        }
    }

    /// Deals with the next processor of the list and moves the cursor over
    /// it. `is_bsp` says whether the caller is the bootstrap processor.
    ///
    /// Once the cursor has reached the end of the list, a call changes
    /// nothing. It never fails.
    pub fn launch_next_ap(&mut self, is_bsp: bool) -> (r: Result<ApAction, Error>)
        requires
            old(self).wf(),
        ensures
            final(self).wf(),
            final(self)@ == (Discovery {
                cursor: next_cursor(old(self)@.cursor, old(self)@.ids.len()),
                ..old(self)@
            }),
            r == Ok::<ApAction, Error>(action_at(old(self)@.ids, old(self)@.cursor, is_bsp)),
    {
        let cursor = self.cur_apic();
        match self.apic_id(cursor) {
            None => Ok(ApAction::Nothing),
            Some(id) => {
                self.advance();
                if is_bsp {
                    Ok(ApAction::Bootstrap)
                } else {
                    Ok(ApAction::Wake(id))
                }
            },
        }
    }
}

/// While processors are left, every call moves the cursor on by exactly one;
/// once none is left, the cursor stays where it is. So `calls` calls in a
/// row move a cursor that starts within the list on by `calls`, but never
/// past the end of the list.
pub proof fn lemma_cursor_progress(cursor: nat, count: nat, calls: nat)
    requires
        cursor <= count,
    ensures
        cursor < count ==> next_cursor(cursor, count) == cursor + 1,
        next_cursor(count, count) == count,
        cursor_after(cursor, count, calls) == if cursor + calls <= count {
            cursor + calls
        } else {
            count
        },
    decreases calls,
{
    if calls > 0 {
        lemma_cursor_progress(cursor, count, (calls - 1) as nat);
    }
}

/// Once the cursor has reached the end of the list, bring-up is done and
/// stays done, and every further call asks for nothing.
pub proof fn lemma_done_is_final(ids: Seq<u32>, cursor: nat, calls: nat, is_bsp: bool)
    requires
        cursor >= ids.len(),
    ensures
        cursor_after(cursor, ids.len(), calls) == cursor,
        state_at(cursor_after(cursor, ids.len(), calls), ids.len()) == BringUpState::Done,
        action_at(ids, cursor_after(cursor, ids.len(), calls), is_bsp) == ApAction::Nothing,
    decreases calls,
{
    if calls > 0 {
        lemma_done_is_final(ids, cursor, (calls - 1) as nat, is_bsp);
    }
}

} // verus!
