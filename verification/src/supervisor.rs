//! The process supervisor: a single slot tracking at most one running child
//! process, the transitions that spawn outcomes and close requests drive it
//! through, and the diagnostic line owed after each step.

use vstd::prelude::*;

use crate::diag;

verus! {

/// The single shared slot: empty until a spawn succeeds, then running with
/// the child's PID until a close request clears it.
#[derive(Clone, Copy, PartialEq, Eq, Debug)]
pub enum SlotState {
    Empty,
    Running { pid: u32 },
}

/// What the spawn attempt came back with: the child's PID, or the failure
/// detail reported by the operating system.
#[derive(PartialEq, Eq, Debug)]
pub enum SpawnOutcome {
    Spawned { pid: u32 },
    Failed { detail: String },
}

/// What recording a spawn outcome decided. `Recorded` is the only report on
/// which the caller may keep the child's ownership token in the slot;
/// `RejectedSecondStart` tells the caller to stop the duplicate child it just
/// spawned, so that the tracked handle is never silently replaced.
#[derive(PartialEq, Eq, Debug)]
pub enum StartReport {
    Recorded { pid: u32 },
    SpawnFailed { detail: String },
    RejectedSecondStart { pid: u32 },
}

/// What a close request decided: terminate the tracked child, or nothing
/// when no child is tracked.
#[derive(Clone, Copy, PartialEq, Eq, Debug)]
pub enum CloseAction {
    Terminate { pid: u32 },
    DoNothing,
}

/// The slot after a spawn outcome is recorded: only a success into an empty
/// slot changes it.
pub open spec fn start_next(s: SlotState, o: SpawnOutcome) -> SlotState {
    match (s, o) {
        (SlotState::Empty, SpawnOutcome::Spawned { pid }) => SlotState::Running { pid },
        _ => s,
    }
}

/// The report owed for a spawn outcome recorded over a given slot.
pub open spec fn start_report(s: SlotState, o: SpawnOutcome) -> StartReport {
    match o {
        SpawnOutcome::Spawned { pid } => match s {
            SlotState::Empty => StartReport::Recorded { pid },
            SlotState::Running { .. } => StartReport::RejectedSecondStart { pid },
        },
        SpawnOutcome::Failed { detail } => StartReport::SpawnFailed { detail },
    }
}

/// The slot after a close request: always empty.
pub open spec fn close_next(s: SlotState) -> SlotState {
    SlotState::Empty
}

/// The action owed for a close request over a given slot.
pub open spec fn close_action(s: SlotState) -> CloseAction {
    match s {
        SlotState::Running { pid } => CloseAction::Terminate { pid },
        SlotState::Empty => CloseAction::DoNothing,
    }
}

/// The supervisor owns the slot; all access goes through its methods.
pub struct Supervisor {
    slot: SlotState,
}

impl Supervisor {
    /// The tracked slot, as the contracts speak of it.
    pub closed spec fn state(&self) -> SlotState {
        self.slot
    }

    /// A fresh supervisor tracks no child process.
    pub fn new() -> (s: Supervisor)
        ensures
            s.state() == SlotState::Empty,
    {
        Supervisor { slot: SlotState::Empty }
    }

    /// The slot as currently tracked.
    pub fn slot_state(&self) -> (s: SlotState)
        ensures
            s == self.state(),
    {
        self.slot
    }

    /// Record what the spawn attempt came back with. A success into an empty
    /// slot is recorded; a failure leaves the slot unchanged; a success while
    /// a child is already tracked is rejected, again leaving the slot
    /// unchanged.
    pub fn record_spawn_outcome(&mut self, outcome: SpawnOutcome) -> (r: StartReport)
        ensures
            final(self).state() == start_next(old(self).state(), outcome),
            r == start_report(old(self).state(), outcome),
    {
        match outcome {
            SpawnOutcome::Spawned { pid } => match self.slot {
                SlotState::Empty => {
                    self.slot = SlotState::Running { pid };
                    StartReport::Recorded { pid }
                },
                SlotState::Running { .. } => StartReport::RejectedSecondStart { pid },
            },
            SpawnOutcome::Failed { detail } => StartReport::SpawnFailed { detail },
        }
    }

    /// React to the main window's close request: clear the slot, and say
    /// whether — and which — child process must be terminated. Termination is
    /// requested exactly when a child was tracked.
    pub fn on_close(&mut self) -> (r: CloseAction)
        ensures
            final(self).state() == close_next(old(self).state()),
            r == close_action(old(self).state()),
    {
        let action = match self.slot {
            SlotState::Running { pid } => CloseAction::Terminate { pid },
            SlotState::Empty => CloseAction::DoNothing,
        };
        self.slot = SlotState::Empty;
        action
    }
}

/// The diagnostic line owed for a start report, as the spec lines in
/// [`diag`] describe it.
pub open spec fn spec_report_line(r: StartReport) -> Seq<char> {
    match r {
        StartReport::Recorded { pid } => diag::spec_success_line(pid),
        StartReport::SpawnFailed { detail } => diag::spec_failure_line(detail@),
        StartReport::RejectedSecondStart { pid } => diag::spec_rejected_line(pid),
    }
}

/// Build the one diagnostic line owed for a start report: the success line
/// exactly when the handle was recorded, the failure line with the error's
/// own text, or the rejection line for a duplicate start.
pub fn report_line(r: &StartReport) -> (s: String)
    ensures
        s@ == spec_report_line(*r),
{
    match r {
        StartReport::Recorded { pid } => diag::success_line(*pid),
        StartReport::SpawnFailed { detail } => diag::failure_line(detail.as_str()),
        StartReport::RejectedSecondStart { pid } => diag::rejected_line(*pid),
    }
}

/// A failed spawn changes nothing: the slot stays as it was — in particular a
/// failed first start leaves it empty — and the report is never a success,
/// so no success line is ever produced for it.
pub proof fn lemma_failed_spawn_changes_nothing(s: SlotState, o: SpawnOutcome)
    requires
        o is Failed,
    ensures
        start_next(s, o) == s,
        !(start_report(s, o) is Recorded),
        (o matches SpawnOutcome::Failed { detail } ==> spec_report_line(start_report(s, o))
            == diag::spec_failure_line(detail@)),
{
}

/// A successful spawn into an empty slot is recorded: afterwards the slot is
/// running with exactly the PID the spawn returned.
pub proof fn lemma_success_records_handle(pid: u32)
    ensures
        start_next(SlotState::Empty, SpawnOutcome::Spawned { pid }) == (SlotState::Running { pid }),
        start_report(SlotState::Empty, SpawnOutcome::Spawned { pid }) == (StartReport::Recorded {
            pid,
        }),
{
}

/// A start while a child is already tracked never replaces the handle: the
/// slot keeps the PID it had, whatever the new outcome was.
pub proof fn lemma_second_start_keeps_handle(pid: u32, o: SpawnOutcome)
    ensures
        start_next(SlotState::Running { pid }, o) == (SlotState::Running { pid }),
{
}

/// Two close requests in a row terminate the child at most once: the first
/// leaves the slot empty, so the second decides no termination and leaves
/// the slot empty again.
pub proof fn lemma_no_double_termination(s: SlotState)
    ensures
        close_action(close_next(s)) == CloseAction::DoNothing,
        close_next(close_next(s)) == SlotState::Empty,
{
}

} // verus!
