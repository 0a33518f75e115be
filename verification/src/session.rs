//! The halt/run nesting discipline shared by the live backends.
//!
//! A sequence of operations that needs a consistent memory view is wrapped
//! in an `op_start`/`op_done` bracket.  Brackets nest; a nesting counter
//! makes sure only the outermost transition touches the target: the 0-to-1
//! transition physically halts, and the 1-to-0 transition physically
//! resumes, and only when the session was attached to a running target.
//! The tracker decides; the caller performs whatever physical action the
//! tracker returns.

use vstd::prelude::*;

verus! {

/// The halt/run nesting state of one debug session.
#[derive(Copy, Clone, Debug, PartialEq, Eq, Structural)]
pub struct HaltTracker {
    /// How many halt requests are outstanding.
    pub depth: u32,
    /// Whether releasing the outermost halt request should resume the
    /// target: the run state to restore when the nesting empties.  Set at
    /// attach from the target's run state; a backend that tracks halts
    /// across explicit commands latches it anew when its outermost
    /// bracket opens.
    pub run_on_exit: bool,
}

/// The state after one more halt request, and whether that request must
/// physically halt the target.
pub open spec fn spec_halt(s: HaltTracker) -> (HaltTracker, bool) {
    (HaltTracker { depth: (s.depth + 1) as u32, run_on_exit: s.run_on_exit }, s.depth == 0)
}

/// The state after releasing one halt request, and whether that release
/// must physically resume the target.
pub open spec fn spec_run(s: HaltTracker) -> (HaltTracker, bool) {
    (
        HaltTracker { depth: (s.depth - 1) as u32, run_on_exit: s.run_on_exit },
        s.depth == 1 && s.run_on_exit,
    )
}

impl HaltTracker {
    /// A tracker for a freshly attached session.  `was_running` tells
    /// whether the target was running at attach; detaching restores that
    /// state.
    pub fn new(was_running: bool) -> (r: Self)
        ensures
            r.depth == 0,
            r.run_on_exit == was_running,
    {
        Self { depth: 0, run_on_exit: was_running }
    }

    /// Records one halt request.  Returns whether the caller must
    /// physically halt the target: only on the outermost request.
    pub fn halt(&mut self) -> (phys: bool)
        requires
            old(self).depth < u32::MAX,
        ensures
            (*final(self), phys) == spec_halt(*old(self)),
    {
        let phys = self.depth == 0;
        self.depth = self.depth + 1;
        phys
    }

    /// Releases one halt request.  Returns whether the caller must
    /// physically resume the target: only on the outermost release, and
    /// only when the target was running at attach.
    pub fn run(&mut self) -> (phys: bool)
        requires
            old(self).depth > 0,
        ensures
            (*final(self), phys) == spec_run(*old(self)),
    {
        self.depth = self.depth - 1;
        self.depth == 0 && self.run_on_exit
    }
}

/// Two nested brackets around a previously-running target halt it
/// physically exactly once, on the way in, and resume it physically exactly
/// once, on the way out, leaving it running.
pub proof fn lemma_nested_brackets_balance(s0: HaltTracker)
    requires
        s0.depth == 0,
        s0.run_on_exit,
    ensures
        ({
            let (s1, h1) = spec_halt(s0);
            let (s2, h2) = spec_halt(s1);
            let (s3, r1) = spec_run(s2);
            let (s4, r2) = spec_run(s3);
            h1 && !h2 && !r1 && r2 && s4.depth == 0 && s4.run_on_exit
        }),
{
}

/// A bracket around a target that was halted at attach never resumes it:
/// the session restores the original run state on the way out.
pub proof fn lemma_bracket_keeps_halted(s0: HaltTracker)
    requires
        s0.depth == 0,
        !s0.run_on_exit,
    ensures
        ({
            let (s1, h1) = spec_halt(s0);
            let (s2, r1) = spec_run(s1);
            h1 && !r1 && s2.depth == 0
        }),
{
}

} // verus!
