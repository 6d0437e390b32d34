//! The vibrator and its pattern-execution engine.
//!
//! A pattern is an ordered sequence of non-negative millisecond durations
//! `[d0, d1, d2, ...]`: even indices mean "vibrate for d ms", odd indices
//! mean "rest for d ms" — index parity alone discriminates the phases, and
//! the first element is always an on-phase.  The engine walks the pattern
//! one step at a time: it observes the guard's cancellation flag, issues
//! the on call for an even index (fire-and-forget; the native primitive
//! does not block), and then waits the step's duration whatever its
//! parity.  A native call failing mid-pattern is never fatal: the engine
//! proceeds to the next step regardless.
//!
//! The engine is meant to run on an independent unit of concurrency; the
//! only state it shares with the caller is the guard's single cancellation
//! flag (atomically read and written by the shell that runs the loop).
//! [`PatternTask`] is the engine's whole decision logic — which call to
//! issue and how long to wait, step by step — so the loop around it merely
//! performs the calls and sleeps.  [`Vibrator`] carries the native
//! vibrator's state and the calls the native layer has received, oldest
//! first, so that what a pattern run issues is itself stated and proved.

use vstd::prelude::*;

verus! {

/// One call the native vibrator layer received.
#[derive(Clone, Copy, Debug, PartialEq, Eq, Structural)]
pub enum VibratorCall {
    /// Turn the vibrator on for this many milliseconds.
    On { duration_ms: u64 },
    /// Turn the vibrator off.
    Off,
}

/// The native vibrator, as the engine sees it: whether the hardware has a
/// vibrator at all, whether its native calls succeed, and every call the
/// native layer has received, oldest first.
#[derive(Debug)]
pub struct Vibrator {
    /// Whether the device has a vibrator.
    pub present: bool,
    /// Whether the native on/off calls report success on this device.
    pub healthy: bool,
    /// The calls the native layer has received, oldest first.
    pub calls: Vec<VibratorCall>,
}

impl Vibrator {
    /// A `Vibrator` when the hardware reports one, or `None`.  Absence of
    /// the hardware is a normal configuration outcome, safe to probe
    /// speculatively.
    pub fn new(present: bool) -> (r: Option<Vibrator>)
        ensures
            r is Some <==> present,
            r matches Some(v) ==> v.present && v.healthy && v.calls@ == Seq::<
                VibratorCall,
            >::empty(),
    {
        if present {
            let v = Vibrator { present: true, healthy: true, calls: Vec::new() };
            assert(v.calls@ =~= Seq::<VibratorCall>::empty());
            Some(v)
        } else {
            None
        }
    }

    /// Whether the device has a vibrator.
    pub fn has_vibrator(&self) -> (r: bool)
        ensures
            r == self.present,
    {
        self.present
    }

    /// Turns the vibrator on for some period of time.
    /// Returns true if successful.
    pub fn on(&mut self, timeout_ms: u64) -> (r: bool)
        ensures
            final(self).calls@ == old(self).calls@.push(
                VibratorCall::On { duration_ms: timeout_ms },
            ),
            final(self).present == old(self).present,
            final(self).healthy == old(self).healthy,
            r == (old(self).present && old(self).healthy),
    {
        self.calls.push(VibratorCall::On { duration_ms: timeout_ms });
        self.present && self.healthy
    }

    /// Turns the vibrator off.
    /// Returns true if successful.
    pub fn off(&mut self) -> (r: bool)
        ensures
            final(self).calls@ == old(self).calls@.push(VibratorCall::Off),
            final(self).present == old(self).present,
            final(self).healthy == old(self).healthy,
            r == (old(self).present && old(self).healthy),
    {
        self.calls.push(VibratorCall::Off);
        self.present && self.healthy
    }

    /// Starts a pattern: hands back a fresh guard for the caller and the
    /// engine state that an independent unit of concurrency then drives
    /// with [`PatternTask::step`] (or [`PatternTask::run`] when nothing
    /// cancels).
    pub fn pattern(&self, durations: Vec<u64>) -> (r: (PatternGuard, PatternTask))
        ensures
            !r.0.canceled(),
            r.1.wf(),
            r.1.durations() == durations@,
            r.1.index() == 0,
    {
        (PatternGuard::default(), PatternTask::new(durations))
    }
}

/// A cooperative cancellation token shared between the caller and a
/// running pattern task: one boolean flag, set once, observed many times.
/// Once the flag is observed true the engine schedules no further step.
#[derive(Clone, Debug)]
pub struct PatternGuard {
    canceled: bool,
}

impl PatternGuard {
    /// Whether the pattern has been canceled.
    pub closed spec fn canceled(self) -> bool {
        self.canceled
    }

    /// Cancels an ongoing vibration pattern: if the vibration hardware is
    /// present, immediately forces the device off as a best-effort native
    /// call (its own failure is ignored), then sets the cancellation flag.
    /// Safe to call any number of times: the outcome does not depend on
    /// whether the guard was already canceled, and the flag stays set.
    pub fn cancel(&mut self, vibrator: &mut Vibrator)
        ensures
            final(self).canceled(),
            old(vibrator).present ==> final(vibrator).calls@ == old(vibrator).calls@.push(
                VibratorCall::Off,
            ),
            !old(vibrator).present ==> final(vibrator).calls@ == old(vibrator).calls@,
            final(vibrator).present == old(vibrator).present,
            final(vibrator).healthy == old(vibrator).healthy,
    {
        if vibrator.has_vibrator() {
            let _ = vibrator.off();
        }
        self.canceled = true;
    }

    /// Non-blocking observation of the current flag state.
    pub fn is_canceled(&self) -> (r: bool)
        ensures
            r == self.canceled(),
    {
        self.canceled
    }
}

impl Default for PatternGuard {
    /// A guard that has not been canceled.
    fn default() -> (r: Self)
        ensures
            !r.canceled(),
    {
        PatternGuard { canceled: false }
    }
}

/// What the engine decides to do at one step.
#[derive(Clone, Copy, Debug, PartialEq, Eq, Structural)]
pub enum PatternAction {
    /// The cancellation flag was observed set: stop immediately, no
    /// further step executes.
    Canceled,
    /// The pattern ran past its last element: terminate normally.
    Finished,
    /// Execute one phase: issue an on call for `wait_ms` when `vibrate`
    /// (even index), and in every case wait `wait_ms` before the next
    /// step.
    Phase { vibrate: bool, wait_ms: u64 },
}

/// The engine's position in a pattern: the durations and the next step's
/// index.
#[derive(Debug)]
pub struct PatternTask {
    durations: Vec<u64>,
    index: usize,
}

/// The on calls a run over steps `lo..hi` of the pattern issues: one for
/// each even index, in order.
pub open spec fn on_calls(durations: Seq<u64>, lo: int, hi: int) -> Seq<VibratorCall>
    decreases hi - lo,
{
    if lo >= hi {
        Seq::empty()
    } else {
        (if lo % 2 == 0 {
            seq![VibratorCall::On { duration_ms: durations[lo] }]
        } else {
            Seq::empty()
        }) + on_calls(durations, lo + 1, hi)
    }
}

/// Peeling the last step off a run: step `hi` contributes its on call
/// exactly when `hi` is even.
proof fn lemma_on_calls_snoc(durations: Seq<u64>, lo: int, hi: int)
    requires
        0 <= lo <= hi,
    ensures
        on_calls(durations, lo, hi + 1) == on_calls(durations, lo, hi) + (if hi % 2 == 0 {
            seq![VibratorCall::On { duration_ms: durations[hi] }]
        } else {
            Seq::<VibratorCall>::empty()
        }),
    decreases hi - lo,
{
    let last: Seq<VibratorCall> = if hi % 2 == 0 {
        seq![VibratorCall::On { duration_ms: durations[hi] }]
    } else {
        Seq::empty()
    };
    if lo == hi {
        assert(on_calls(durations, lo, hi) + last =~= last);
        assert(on_calls(durations, hi + 1, hi + 1) =~= Seq::<VibratorCall>::empty());
        assert(on_calls(durations, lo, hi + 1) =~= last);
    } else {
        lemma_on_calls_snoc(durations, lo + 1, hi);
        let head: Seq<VibratorCall> = if lo % 2 == 0 {
            seq![VibratorCall::On { duration_ms: durations[lo] }]
        } else {
            Seq::empty()
        };
        assert(head + (on_calls(durations, lo + 1, hi) + last) =~= (head + on_calls(
            durations,
            lo + 1,
            hi,
        )) + last);
    }
}

/// How many even indices `lo..hi` holds.
proof fn lemma_on_calls_len(durations: Seq<u64>, lo: int, hi: int)
    requires
        0 <= lo <= hi,
    ensures
        on_calls(durations, lo, hi).len() == (hi + 1) / 2 - (lo + 1) / 2,
    decreases hi - lo,
{
    if lo < hi {
        lemma_on_calls_len(durations, lo + 1, hi);
    }
}

/// A full, uncanceled run over a pattern issues an on call for exactly
/// the even indices: `(n + 1) / 2` of them for a pattern of `n` steps.
pub proof fn lemma_full_run_on_call_count(durations: Seq<u64>)
    ensures
        on_calls(durations, 0, durations.len() as int).len() == (durations.len() + 1) as int / 2,
{
    lemma_on_calls_len(durations, 0, durations.len() as int);
}

impl PatternTask {
    /// The pattern's durations.
    pub closed spec fn durations(self) -> Seq<u64> {
        self.durations@
    }

    /// The index of the next step.
    pub closed spec fn index(self) -> int {
        self.index as int
    }

    /// The engine never stands past the end of its pattern.
    pub open spec fn wf(self) -> bool {
        0 <= self.index() <= self.durations().len()
    }

    /// An engine at the start of the given pattern.
    pub fn new(durations: Vec<u64>) -> (t: PatternTask)
        ensures
            t.wf(),
            t.durations() == durations@,
            t.index() == 0,
    {
        PatternTask { durations, index: 0 }
    }

    /// One decision of the engine, `canceled` being the observation of
    /// the guard's flag made now: stop when the flag is set (before any
    /// further on-phase), terminate past the last element, and otherwise
    /// hand out the current phase and advance.
    pub fn next(&mut self, canceled: bool) -> (a: PatternAction)
        ensures
            canceled ==> a == PatternAction::Canceled && *final(self) == *old(self),
            !canceled && old(self).index() >= old(self).durations().len() ==> a
                == PatternAction::Finished && *final(self) == *old(self),
            !canceled && old(self).index() < old(self).durations().len() ==> {
                &&& a == (PatternAction::Phase {
                    vibrate: old(self).index() % 2 == 0,
                    wait_ms: old(self).durations()[old(self).index()],
                })
                &&& final(self).durations() == old(self).durations()
                &&& final(self).index() == old(self).index() + 1
            },
    {
        if canceled {
            return PatternAction::Canceled;
        }
        if self.index >= self.durations.len() {
            return PatternAction::Finished;
        }
        let wait_ms = self.durations[self.index];
        let vibrate = self.index % 2 == 0;
        self.index = self.index + 1;
        PatternAction::Phase { vibrate, wait_ms }
    }

    /// One engine iteration against the vibrator: decide, issue the on
    /// call for an even index (ignoring its success), and hand back the
    /// duration to wait — `None` when the run is over, because the flag
    /// was observed set or the pattern is done.  A canceled step issues
    /// nothing: the vibrator is untouched.
    pub fn step(&mut self, vibrator: &mut Vibrator, canceled: bool) -> (w: Option<u64>)
        ensures
            w is None <==> (canceled || old(self).index() >= old(self).durations().len()),
            w is None ==> *final(self) == *old(self) && *final(vibrator) == *old(vibrator),
            w matches Some(wait_ms) ==> {
                &&& wait_ms == old(self).durations()[old(self).index()]
                &&& final(self).durations() == old(self).durations()
                &&& final(self).index() == old(self).index() + 1
                &&& final(vibrator).present == old(vibrator).present
                &&& final(vibrator).healthy == old(vibrator).healthy
                &&& if old(self).index() % 2 == 0 {
                    final(vibrator).calls@ == old(vibrator).calls@.push(
                        VibratorCall::On { duration_ms: wait_ms },
                    )
                } else {
                    final(vibrator).calls@ == old(vibrator).calls@
                }
            },
    {
        match self.next(canceled) {
            PatternAction::Canceled => None,
            PatternAction::Finished => None,
            PatternAction::Phase { vibrate, wait_ms } => {
                if vibrate {
                    let _ = vibrator.on(wait_ms);
                }
                Some(wait_ms)
            },
        }
    }

    /// Drives the engine until it stops, observing the guard before every
    /// step, as the background loop does.  When the guard is canceled
    /// nothing at all is issued; otherwise the run completes the pattern:
    /// the native layer receives exactly the on calls of the remaining
    /// even indices, and the waits performed are exactly the remaining
    /// durations — so the run's total duration is their sum.
    pub fn run(&mut self, vibrator: &mut Vibrator, guard: &PatternGuard) -> (waits: Vec<u64>)
        requires
            old(self).wf(),
        ensures
            final(self).durations() == old(self).durations(),
            guard.canceled() ==> *final(self) == *old(self) && *final(vibrator) == *old(vibrator)
                && waits@ == Seq::<u64>::empty(),
            !guard.canceled() ==> {
                &&& final(self).index() == old(self).durations().len()
                &&& final(vibrator).calls@ == old(vibrator).calls@ + on_calls(
                    old(self).durations(),
                    old(self).index(),
                    old(self).durations().len() as int,
                )
                &&& waits@ == old(self).durations().subrange(
                    old(self).index(),
                    old(self).durations().len() as int,
                )
                &&& final(vibrator).present == old(vibrator).present
                &&& final(vibrator).healthy == old(vibrator).healthy
            },
    {
        let mut waits: Vec<u64> = Vec::new();
        if guard.is_canceled() {
            assert(waits@ =~= Seq::<u64>::empty());
            return waits;
        }
        let ghost d0 = self.durations();
        let ghost i0 = self.index();
        let ghost calls0 = vibrator.calls@;
        let ghost p0 = vibrator.present;
        let ghost h0 = vibrator.healthy;
        proof {
            assert(on_calls(d0, i0, i0) =~= Seq::<VibratorCall>::empty());
            assert(calls0 + on_calls(d0, i0, i0) =~= calls0);
            assert(waits@ =~= d0.subrange(i0, i0));
        }
        while self.index < self.durations.len()
            invariant
                self.wf(),
                self.durations() == d0,
                0 <= i0 <= self.index() <= d0.len(),
                !guard.canceled(),
                vibrator.calls@ == calls0 + on_calls(d0, i0, self.index()),
                vibrator.present == p0,
                vibrator.healthy == h0,
                waits@ == d0.subrange(i0, self.index()),
            decreases self.durations@.len() - self.index,
        {
            let ghost i = self.index();
            let w = self.step(vibrator, guard.is_canceled());
            match w {
                Option::Some(wait_ms) => {
                    waits.push(wait_ms);
                    proof {
                        lemma_on_calls_snoc(d0, i0, i);
                        if i % 2 == 0 {
                            assert(calls0 + (on_calls(d0, i0, i) + seq![
                                VibratorCall::On { duration_ms: wait_ms },
                            ]) =~= (calls0 + on_calls(d0, i0, i)).push(
                                VibratorCall::On { duration_ms: wait_ms },
                            ));
                        } else {
                            assert(on_calls(d0, i0, i) + Seq::<VibratorCall>::empty() =~= on_calls(
                                d0,
                                i0,
                                i,
                            ));
                        }
                        assert(waits@ =~= d0.subrange(i0, i + 1));
                    }
                },
                Option::None => {
                    assert(false);
                },
            }
        }
        waits
    }
}

} // verus!
