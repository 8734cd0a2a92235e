use vstd::prelude::*;

verus! {

/// How long the supervisor waits, once cancelled, for its jobs to finish.
pub const DRAIN_TIMEOUT_MS: u64 = 10000;

/// Where the supervisor stands; it only ever moves forward through these.
#[derive(Clone, Copy, Debug, PartialEq, Eq, Structural)]
pub enum Phase {
    Running,
    Cancelling,
    Draining,
    Stopped,
}

/// What the supervisor is told.
#[derive(Clone, Copy, Debug, PartialEq, Eq, Structural)]
pub enum SupervisorEvent {
    /// A job asks to be registered.
    JobSpawned,
    /// A registered job ended, however it ended; its exit sets the
    /// cancellation signal.
    JobExited,
    /// The process was asked to terminate.
    TerminateRequested,
    /// The process was interrupted.
    InterruptRequested,
    /// The cancellation signal was found set.
    SignalObserved,
    /// The cancellation signal has been set, as the supervisor asked.
    CancelSent,
    /// Every registered job has finished.
    JobsDrained,
    /// The drain wait ran out of time.
    DrainTimedOut,
}

/// What the supervisor asks its runner to do.
#[derive(Clone, Copy, Debug, PartialEq, Eq, Structural)]
pub enum SupervisorAction {
    /// Nothing to do; keep waiting.
    Continue,
    /// Start the job that asked to be registered.
    Register,
    /// Do not start it: registration is closed.
    RefuseJob,
    /// Set the cancellation signal.
    Cancel,
    /// Close registration and wait for the jobs, at most `timeout_ms`.
    Drain { timeout_ms: u64 },
    /// Shut down; `timed_out` tells that some job did not finish in time.
    Stop { timed_out: bool },
}

/// The supervisor's state as mathematical values.
pub struct SupervisorView {
    pub phase: Phase,
    pub cancelled: bool,
    pub accepting: bool,
    pub outstanding: nat,
    pub timed_out: bool,
}

/// The order of the phases.
pub open spec fn phase_rank(p: Phase) -> nat {
    match p {
        Phase::Running => 0,
        Phase::Cancelling => 1,
        Phase::Draining => 2,
        Phase::Stopped => 3,
    }
}

/// `s` moved to `phase`, with the signal set.
pub open spec fn cancelled_in(s: SupervisorView, phase: Phase) -> SupervisorView {
    SupervisorView { phase, cancelled: true, ..s }
}

/// The supervisor's next state and action on one event.
pub open spec fn supervise(s: SupervisorView, e: SupervisorEvent) -> (SupervisorView, SupervisorAction) {
    if s.phase == Phase::Stopped {
        (s, SupervisorAction::Continue)
    } else {
        match e {
            SupervisorEvent::JobSpawned => if s.accepting && s.outstanding < usize::MAX {
                (SupervisorView { outstanding: s.outstanding + 1, ..s }, SupervisorAction::Register)
            } else {
                (s, SupervisorAction::RefuseJob)
            },
            SupervisorEvent::JobExited => {
                let left: nat = if s.outstanding > 0 { (s.outstanding - 1) as nat } else { 0 };
                let t = SupervisorView { outstanding: left, cancelled: true, ..s };
                if s.phase == Phase::Running {
                    (SupervisorView { phase: Phase::Cancelling, ..t }, SupervisorAction::Cancel)
                } else if s.phase == Phase::Draining && left == 0 {
                    (SupervisorView { phase: Phase::Stopped, ..t }, SupervisorAction::Stop { timed_out: false })
                } else {
                    (t, SupervisorAction::Continue)
                }
            },
            SupervisorEvent::TerminateRequested | SupervisorEvent::InterruptRequested
            | SupervisorEvent::SignalObserved => if s.phase == Phase::Running {
                (cancelled_in(s, Phase::Cancelling), SupervisorAction::Cancel)
            } else {
                (s, SupervisorAction::Continue)
            },
            SupervisorEvent::CancelSent => if s.phase == Phase::Cancelling {
                (
                    SupervisorView { phase: Phase::Draining, accepting: false, ..s },
                    SupervisorAction::Drain { timeout_ms: DRAIN_TIMEOUT_MS },
                )
            } else {
                (s, SupervisorAction::Continue)
            },
            SupervisorEvent::JobsDrained => if s.phase == Phase::Draining {
                (
                    SupervisorView { phase: Phase::Stopped, outstanding: 0, ..s },
                    SupervisorAction::Stop { timed_out: false },
                )
            } else {
                (s, SupervisorAction::Continue)
            },
            SupervisorEvent::DrainTimedOut => if s.phase == Phase::Draining {
                (
                    SupervisorView { phase: Phase::Stopped, timed_out: true, ..s },
                    SupervisorAction::Stop { timed_out: true },
                )
            } else {
                (s, SupervisorAction::Continue)
            },
        }
    }
}

/// The state after a sequence of events.
pub open spec fn supervise_all(s: SupervisorView, events: Seq<SupervisorEvent>) -> SupervisorView
    decreases events.len(),
{
    if events.len() == 0 {
        s
    } else {
        supervise(supervise_all(s, events.drop_last()), events.last()).0
    }
}

/// The coordinator of the long-running jobs: it registers them, reacts to
/// stop requests and to any job's exit by cancelling all of them, and waits a
/// bounded time for them to finish.
pub struct Supervisor {
    phase: Phase,
    cancelled: bool,
    accepting: bool,
    outstanding: usize,
    timed_out: bool,
}

impl View for Supervisor {
    type V = SupervisorView;

    closed spec fn view(&self) -> SupervisorView {
        SupervisorView {
            phase: self.phase,
            cancelled: self.cancelled,
            accepting: self.accepting,
            outstanding: self.outstanding as nat,
            timed_out: self.timed_out,
        }
    }
}

impl Supervisor {
    /// A running supervisor with no job and the signal unset.
    pub fn new() -> (r: Supervisor)
        ensures
            r@ == (SupervisorView {
                phase: Phase::Running,
                cancelled: false,
                accepting: true,
                outstanding: 0,
                timed_out: false,
            }),
    {
        Supervisor {
            phase: Phase::Running,
            cancelled: false,
            accepting: true,
            outstanding: 0,
            timed_out: false,
        }
    }

    /// The current phase.
    pub fn phase(&self) -> (r: Phase)
        ensures
            r == self@.phase,
    {
        self.phase
    }

    /// Whether the cancellation signal has been set.
    pub fn is_cancelled(&self) -> (r: bool)
        ensures
            r == self@.cancelled,
    {
        self.cancelled
    }

    /// The number of registered jobs that have not finished.
    pub fn outstanding(&self) -> (r: usize)
        ensures
            r == self@.outstanding,
    {
        self.outstanding
    }

    /// Takes one event and returns what is to be done.
    pub fn handle(&mut self, event: SupervisorEvent) -> (r: SupervisorAction)
        ensures
            (final(self)@, r) == supervise(old(self)@, event),
    {
        if self.phase == Phase::Stopped {
            return SupervisorAction::Continue;
        }
        match event {
            SupervisorEvent::JobSpawned => {
                if self.accepting && self.outstanding < usize::MAX {
                    self.outstanding = self.outstanding + 1;
                    SupervisorAction::Register
                } else {
                    SupervisorAction::RefuseJob
                }
            },
            SupervisorEvent::JobExited => {
                self.outstanding = self.outstanding.saturating_sub(1);
                self.cancelled = true;
                if self.phase == Phase::Running {
                    self.phase = Phase::Cancelling;
                    SupervisorAction::Cancel
                } else if self.phase == Phase::Draining && self.outstanding == 0 {
                    self.phase = Phase::Stopped;
                    SupervisorAction::Stop { timed_out: false }
                } else {
                    SupervisorAction::Continue
                }
            },
            SupervisorEvent::TerminateRequested | SupervisorEvent::InterruptRequested
            | SupervisorEvent::SignalObserved => {
                if self.phase == Phase::Running {
                    self.phase = Phase::Cancelling;
                    self.cancelled = true;
                    SupervisorAction::Cancel
                } else {
                    SupervisorAction::Continue
                }
            },
            SupervisorEvent::CancelSent => {
                if self.phase == Phase::Cancelling {
                    self.phase = Phase::Draining;
                    self.accepting = false;
                    SupervisorAction::Drain { timeout_ms: DRAIN_TIMEOUT_MS }
                } else {
                    SupervisorAction::Continue
                }
            },
            SupervisorEvent::JobsDrained => {
                if self.phase == Phase::Draining {
                    self.phase = Phase::Stopped;
                    self.outstanding = 0;
                    SupervisorAction::Stop { timed_out: false }
                } else {
                    SupervisorAction::Continue
                }
            },
            SupervisorEvent::DrainTimedOut => {
                if self.phase == Phase::Draining {
                    self.phase = Phase::Stopped;
                    self.timed_out = true;
                    SupervisorAction::Stop { timed_out: true }
                } else {
                    SupervisorAction::Continue
                }
            },
        }
    }
}

/// Cancellation is one-way and the phases only move forward: no event unsets
/// the signal or takes the supervisor back to an earlier phase.
pub proof fn supervisor_only_moves_forward(s: SupervisorView, e: SupervisorEvent)
    ensures
        s.cancelled ==> supervise(s, e).0.cancelled,
        phase_rank(s.phase) <= phase_rank(supervise(s, e).0.phase),
        s.phase == Phase::Stopped ==> supervise(s, e).0 == s,
{
}

/// The events of a shutdown in which some job never finishes: the signal is
/// seen, the cancel is confirmed, and the drain time runs out.
pub open spec fn shutdown_with_stuck_job() -> Seq<SupervisorEvent> {
    seq![
        SupervisorEvent::SignalObserved,
        SupervisorEvent::CancelSent,
        SupervisorEvent::DrainTimedOut,
    ]
}

/// Once the cancellation signal is seen, the supervisor stops within one
/// bounded wait, even when a job never finishes: from any state, seeing the
/// signal, confirming the cancel and running out the drain time leave it
/// stopped; the only wait it asks for on the way lasts `DRAIN_TIMEOUT_MS`, and
/// a supervisor that was not yet stopped reports the timeout.
pub proof fn cancelled_supervisor_stops_in_bounded_time(s: SupervisorView)
    ensures
        supervise_all(s, shutdown_with_stuck_job()).phase == Phase::Stopped,
        s.phase != Phase::Stopped ==> supervise_all(s, shutdown_with_stuck_job()).timed_out,
        s.phase == Phase::Running || s.phase == Phase::Cancelling ==> supervise(
            supervise(s, SupervisorEvent::SignalObserved).0,
            SupervisorEvent::CancelSent,
        ).1 == (SupervisorAction::Drain { timeout_ms: DRAIN_TIMEOUT_MS }),
{
    let events = shutdown_with_stuck_job();
    assert(events.drop_last().drop_last().drop_last() =~= Seq::<SupervisorEvent>::empty());
    assert(events.drop_last().drop_last() =~= seq![SupervisorEvent::SignalObserved]);
    assert(events.drop_last() =~= seq![SupervisorEvent::SignalObserved, SupervisorEvent::CancelSent]);
    reveal_with_fuel(supervise_all, 4);
}

} // verus!
