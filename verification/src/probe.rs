//! The live-probe backend's session state.
//!
//! The probe driver owns the physical link; this module owns every decision
//! around it: which reads may bypass the halt discipline because they fall
//! in an always-readable window, when a halt or run request must touch the
//! target, whether flashing is permitted, and the progress accounting of a
//! flash operation.  The caller performs the physical action each decision
//! calls for.

use crate::backend::CORE_MAX_READSIZE;
use crate::errors::Error;
use crate::session::{spec_halt, spec_run, HaltTracker};
use vstd::prelude::*;

verus! {

/// The entry of `ws` with the greatest base not above `addr`; a later
/// entry wins a tie.
pub open spec fn spec_window_for(ws: Seq<(u32, u32)>, addr: u32) -> Option<(u32, u32)>
    decreases ws.len(),
{
    if ws.len() == 0 {
        None
    } else {
        let rest = spec_window_for(ws.drop_last(), addr);
        let w = ws.last();
        if w.0 <= addr && (rest is None || (rest->0).0 <= w.0) {
            Some(w)
        } else {
            rest
        }
    }
}

/// Finds the window with the greatest base not above `addr`.
pub fn window_for(ws: &Vec<(u32, u32)>, addr: u32) -> (r: Option<(u32, u32)>)
    ensures
        r == spec_window_for(ws@, addr),
{
    let mut best: Option<(u32, u32)> = None;
    let mut i: usize = 0;
    proof {
        assert(ws@.take(0) =~= Seq::<(u32, u32)>::empty());
    }
    while i < ws.len()
        invariant
            i <= ws@.len(),
            best == spec_window_for(ws@.take(i as int), addr),
        decreases ws@.len() - i,
    {
        proof {
            assert(ws@.take(i + 1).drop_last() =~= ws@.take(i as int));
            assert(ws@.take(i + 1).last() == ws@[i as int]);
        }
        let w = ws[i];
        let better = match best {
            None => w.0 <= addr,
            Some(b) => w.0 <= addr && b.0 <= w.0,
        };
        if better {
            best = Some(w);
        }
        i = i + 1;
    }
    proof {
        assert(ws@.take(ws@.len() as int) =~= ws@);
    }
    best
}

/// Whether a read of `len` bytes at `addr` falls inside the window with
/// the greatest base not above `addr`, and so may bypass the halt
/// discipline.
pub open spec fn spec_unhalted_read_ok(ws: Seq<(u32, u32)>, addr: u32, len: u32) -> bool {
    spec_window_for(ws, addr) matches Some(w) && addr + len < w.0 + w.1
}

/// The live-probe session state: identity, the always-readable windows,
/// the halt/run nesting discipline, and whether the session may flash.
#[derive(Clone, Debug)]
pub struct ProbeCore {
    pub identifier: String,
    pub vendor_id: u16,
    pub product_id: u16,
    pub serial_number: Option<String>,
    /// Whether the target allows reads while running, making the halt
    /// discipline unnecessary.
    pub unhalted_reads: bool,
    /// The halt/run nesting state.
    pub tracker: HaltTracker,
    /// Address windows readable without halting, as (base, size) pairs.
    pub unhalted_read: Vec<(u32, u32)>,
    /// Whether the session was attached with an explicit chip identifier;
    /// only such a session may flash.
    pub can_flash: bool,
}

impl ProbeCore {
    /// The session state of a freshly attached probe.  The windows come
    /// from the architecture; a probe session always resumes the target
    /// when the outermost halt request is released.
    pub fn new(
        identifier: String,
        vendor_id: u16,
        product_id: u16,
        serial_number: Option<String>,
        unhalted_reads: bool,
        can_flash: bool,
    ) -> (r: Self)
        ensures
            r.identifier == identifier,
            r.vendor_id == vendor_id,
            r.product_id == product_id,
            r.serial_number == serial_number,
            r.unhalted_reads == unhalted_reads,
            r.can_flash == can_flash,
            r.tracker.depth == 0,
            r.tracker.run_on_exit,
            r.unhalted_read@ == seq![(0xe000_0000u32, 0x0010_0000u32)],
    {
        Self {
            identifier,
            vendor_id,
            product_id,
            serial_number,
            unhalted_reads,
            tracker: HaltTracker::new(true),
            unhalted_read: crate::arch_arm::unhalted_read_regions(),
            can_flash,
        }
    }

    /// Whether a read of `len` bytes at `addr` may bypass the halt
    /// discipline.
    pub fn unhalted_read_ok(&self, addr: u32, len: u32) -> (r: bool)
        ensures
            r == spec_unhalted_read_ok(self.unhalted_read@, addr, len),
    {
        match window_for(&self.unhalted_read, addr) {
            Some(w) => (addr as u64) + (len as u64) < (w.0 as u64) + (w.1 as u64),
            None => false,
        }
    }

    /// Rejects a byte read longer than the backend's maximum.
    pub fn check_read_size(&self, len: usize) -> (r: Result<(), Error>)
        ensures
            r == (if len > CORE_MAX_READSIZE {
                Err::<(), Error>(Error::ReadTooLarge(len))
            } else {
                Ok::<(), Error>(())
            }),
    {
        if len > CORE_MAX_READSIZE {
            Err(Error::ReadTooLarge(len))
        } else {
            Ok(())
        }
    }

    /// Whether a read outside the always-readable windows must
    /// transiently halt the target: only when the halt discipline applies,
    /// no halt request is outstanding, and the core is not already halted.
    pub fn needs_transient_halt(&self, core_halted: bool) -> (r: bool)
        ensures
            r == (!self.unhalted_reads && self.tracker.depth == 0 && !core_halted),
    {
        !self.unhalted_reads && self.tracker.depth == 0 && !core_halted
    }

    /// Records one halt request; returns whether the caller must
    /// physically halt the target.
    pub fn halt(&mut self) -> (phys: bool)
        requires
            old(self).tracker.depth < u32::MAX,
        ensures
            (final(self).tracker, phys) == spec_halt(old(self).tracker),
            *final(self) == (ProbeCore { tracker: final(self).tracker, ..*old(self) }),
    {
        self.tracker.halt()
    }

    /// Releases one halt request; returns whether the caller must
    /// physically resume the target.
    pub fn run(&mut self) -> (phys: bool)
        requires
            old(self).tracker.depth > 0,
        ensures
            (final(self).tracker, phys) == spec_run(old(self).tracker),
            *final(self) == (ProbeCore { tracker: final(self).tracker, ..*old(self) }),
    {
        self.tracker.run()
    }

    /// Opens an operation bracket; returns whether the caller must
    /// physically halt the target.  With unhalted reads available the
    /// bracket is a no-op.
    pub fn op_start(&mut self) -> (phys: bool)
        requires
            old(self).tracker.depth < u32::MAX,
        ensures
            (*final(self), phys) == spec_probe_op_start(*old(self)),
    {
        if !self.unhalted_reads {
            self.tracker.halt()
        } else {
            false
        }
    }

    /// Closes an operation bracket; returns whether the caller must
    /// physically resume the target.
    pub fn op_done(&mut self) -> (phys: bool)
        requires
            !old(self).unhalted_reads ==> old(self).tracker.depth > 0,
        ensures
            (*final(self), phys) == spec_probe_op_done(*old(self)),
    {
        if !self.unhalted_reads {
            self.tracker.run()
        } else {
            false
        }
    }

    /// Flashing is permitted only on a session attached with an explicit
    /// chip identifier.
    pub fn check_flash_allowed(&self) -> (r: Result<(), Error>)
        ensures
            r == (if self.can_flash {
                Ok::<(), Error>(())
            } else {
                Err::<(), Error>(Error::CannotFlash)
            }),
    {
        if self.can_flash {
            Ok(())
        } else {
            Err(Error::CannotFlash)
        }
    }
}

/// The session after one more bracket is opened, and whether that
/// opening must physically halt the target; a session with unhalted
/// reads never touches the target for a bracket.
pub open spec fn spec_probe_op_start(p: ProbeCore) -> (ProbeCore, bool) {
    if p.unhalted_reads {
        (p, false)
    } else {
        let (t, phys) = spec_halt(p.tracker);
        (ProbeCore { tracker: t, ..p }, phys)
    }
}

/// The session after one bracket is closed, and whether that closing
/// must physically resume the target.
pub open spec fn spec_probe_op_done(p: ProbeCore) -> (ProbeCore, bool) {
    if p.unhalted_reads {
        (p, false)
    } else {
        let (t, phys) = spec_run(p.tracker);
        (ProbeCore { tracker: t, ..p }, phys)
    }
}

/// Two nested brackets around a previously-running target halt it
/// physically exactly once, on the way in, and resume it physically
/// exactly once, on the way out, leaving the session exactly as it was.
pub proof fn lemma_probe_nested_brackets(p0: ProbeCore)
    requires
        !p0.unhalted_reads,
        p0.tracker.depth == 0,
        p0.tracker.run_on_exit,
    ensures
        ({
            let (p1, h1) = spec_probe_op_start(p0);
            let (p2, h2) = spec_probe_op_start(p1);
            let (p3, r1) = spec_probe_op_done(p2);
            let (p4, r2) = spec_probe_op_done(p3);
            h1 && !h2 && !r1 && r2 && p4 == p0
        }),
{
}

/// `a + b`, clamped at the largest `usize`.
pub open spec fn spec_sat_add(a: nat, b: nat) -> nat {
    if a + b <= usize::MAX {
        a + b
    } else {
        usize::MAX as nat
    }
}

/// Adds with saturation at the largest `usize`.
fn sat_add(a: usize, b: usize) -> (r: usize)
    ensures
        r == spec_sat_add(a as nat, b as nat),
{
    if a > usize::MAX - b {
        usize::MAX
    } else {
        a + b
    }
}

/// One event of a flash operation, as the driver reports it.
#[derive(Copy, Clone, Debug, PartialEq, Eq, Structural)]
pub enum FlashEvent {
    /// The flash layout is known: the totals to erase and to program.
    Initialized { total_erase: usize, total_write: usize },
    /// A sector of the given size was erased.
    SectorErased { size: usize },
    /// A page of the given size was programmed.
    PageProgrammed { size: usize },
    /// Programming finished.
    Finished,
}

/// The progress accounting of a flash operation: erase first, then
/// program.
#[derive(Copy, Clone, Debug, PartialEq, Eq, Structural)]
pub struct FlashProgress {
    /// Total bytes that need to be erased.
    pub total_erase: usize,
    /// Bytes erased so far.
    pub erased: usize,
    /// Total bytes that need to be written.
    pub total_write: usize,
    /// Bytes written so far.
    pub written: usize,
}

impl FlashProgress {
    /// Accounting for a flash operation that has not started.
    pub fn new() -> (r: Self)
        ensures
            r == (FlashProgress { total_erase: 0, erased: 0, total_write: 0, written: 0 }),
    {
        FlashProgress { total_erase: 0, erased: 0, total_write: 0, written: 0 }
    }

    /// Folds one driver event into the accounting.  The first programmed
    /// page ends the erase phase, so the erased count snaps to its total
    /// there.
    pub fn on_event(&mut self, e: FlashEvent)
        ensures
            *final(self) == spec_flash_step(*old(self), e),
    {
        match e {
            FlashEvent::Initialized { total_erase, total_write } => {
                self.total_erase = total_erase;
                self.total_write = total_write;
            },
            FlashEvent::SectorErased { size } => {
                self.erased = sat_add(self.erased, size);
            },
            FlashEvent::PageProgrammed { size } => {
                if self.written == 0 {
                    self.erased = self.total_erase;
                }
                self.written = sat_add(self.written, size);
            },
            FlashEvent::Finished => {},
        }
    }
}

/// The accounting after one driver event.
pub open spec fn spec_flash_step(p: FlashProgress, e: FlashEvent) -> FlashProgress {
    match e {
        FlashEvent::Initialized { total_erase, total_write } => FlashProgress {
            total_erase,
            total_write,
            ..p
        },
        FlashEvent::SectorErased { size } => FlashProgress {
            erased: spec_sat_add(p.erased as nat, size as nat) as usize,
            ..p
        },
        FlashEvent::PageProgrammed { size } => FlashProgress {
            erased: if p.written == 0 {
                p.total_erase
            } else {
                p.erased
            },
            written: spec_sat_add(p.written as nat, size as nat) as usize,
            ..p
        },
        FlashEvent::Finished => p,
    }
}

} // verus!
