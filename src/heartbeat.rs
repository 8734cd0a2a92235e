use vstd::prelude::*;

verus! {

/// The pause between two probes.
pub const HEARTBEAT_INTERVAL_MS: u64 = 1000;

/// The payload of one probe: its sequence number, and how many earlier
/// probes were acknowledged.
#[derive(Clone, Copy, Debug, PartialEq, Eq, Structural)]
pub struct Probe {
    pub id: u64,
    pub v: u64,
}

/// What the heartbeat job is told.
#[derive(Clone, Copy, Debug, PartialEq, Eq, Structural)]
pub enum HeartbeatEvent {
    /// The job has just been launched.
    Started,
    /// The pause is over.
    Slept,
    /// The last probe was delivered and acknowledged.
    ProbeAcknowledged,
    /// The last probe could not be sent.
    ProbeFailed,
}

/// What the heartbeat job does next.
#[derive(Clone, Copy, Debug, PartialEq, Eq, Structural)]
pub enum HeartbeatAction {
    /// Pause for `ms` milliseconds, or until cancelled.
    Sleep { ms: u64 },
    /// Send this probe to every session and wait for the acknowledgements.
    SendProbe(Probe),
    /// End the job; its exit sets the cancellation signal.
    Exit,
}

/// The heartbeat job's state as mathematical values.
pub struct HeartbeatView {
    pub next_id: u64,
    pub acknowledged: u64,
    pub exited: bool,
}

/// One more, wrapping to zero past the largest value.
pub open spec fn successor(n: u64) -> u64 {
    if n < u64::MAX {
        (n + 1) as u64
    } else {
        0
    }
}

/// The job's next state and action on one event, given whether the
/// cancellation signal is set.
pub open spec fn beat(s: HeartbeatView, cancelled: bool, e: HeartbeatEvent) -> (HeartbeatView, HeartbeatAction) {
    if s.exited || cancelled || e == HeartbeatEvent::ProbeFailed {
        (HeartbeatView { exited: true, ..s }, HeartbeatAction::Exit)
    } else {
        match e {
            HeartbeatEvent::Slept => (
                HeartbeatView { next_id: successor(s.next_id), ..s },
                HeartbeatAction::SendProbe(Probe { id: s.next_id, v: s.acknowledged }),
            ),
            HeartbeatEvent::ProbeAcknowledged => (
                HeartbeatView { acknowledged: successor(s.acknowledged), ..s },
                HeartbeatAction::Sleep { ms: HEARTBEAT_INTERVAL_MS },
            ),
            _ => (s, HeartbeatAction::Sleep { ms: HEARTBEAT_INTERVAL_MS }),
        }
    }
}

fn next_number(n: u64) -> (r: u64)
    ensures
        r == successor(n),
{
    if n < u64::MAX {
        n + 1
    } else {
        0
    }
}

/// The liveness prober: while the signal is unset it pauses, probes every
/// session, and starts over; it ends when cancelled or when a probe fails.
pub struct Heartbeat {
    next_id: u64,
    acknowledged: u64,
    exited: bool,
}

impl View for Heartbeat {
    type V = HeartbeatView;

    closed spec fn view(&self) -> HeartbeatView {
        HeartbeatView { next_id: self.next_id, acknowledged: self.acknowledged, exited: self.exited }
    }
}

impl Heartbeat {
    /// A job that has sent no probe yet.
    pub fn new() -> (r: Heartbeat)
        ensures
            r@ == (HeartbeatView { next_id: 0, acknowledged: 0, exited: false }),
    {
        Heartbeat { next_id: 0, acknowledged: 0, exited: false }
    }

    /// Whether the job has ended.
    pub fn has_exited(&self) -> (r: bool)
        ensures
            r == self@.exited,
    {
        self.exited
    }

    /// Takes one event and returns what the job does next.
    pub fn step(&mut self, cancelled: bool, event: HeartbeatEvent) -> (r: HeartbeatAction)
        ensures
            (final(self)@, r) == beat(old(self)@, cancelled, event),
    {
        if self.exited || cancelled || event == HeartbeatEvent::ProbeFailed {
            self.exited = true;
            return HeartbeatAction::Exit;
        }
        match event {
            HeartbeatEvent::Slept => {
                let probe = Probe { id: self.next_id, v: self.acknowledged };
                self.next_id = next_number(self.next_id);
                HeartbeatAction::SendProbe(probe)
            },
            HeartbeatEvent::ProbeAcknowledged => {
                self.acknowledged = next_number(self.acknowledged);
                HeartbeatAction::Sleep { ms: HEARTBEAT_INTERVAL_MS }
            },
            _ => HeartbeatAction::Sleep { ms: HEARTBEAT_INTERVAL_MS },
        }
    }
}

/// The job ends exactly when it is cancelled, when a probe fails, or when it
/// had already ended, and once ended it stays ended.
pub proof fn heartbeat_exits_only_when_stopped(s: HeartbeatView, cancelled: bool, e: HeartbeatEvent)
    ensures
        (beat(s, cancelled, e).1 == HeartbeatAction::Exit) <==> (s.exited || cancelled || e
            == HeartbeatEvent::ProbeFailed),
        beat(s, cancelled, e).0.exited <==> (s.exited || cancelled || e
            == HeartbeatEvent::ProbeFailed),
{
}

} // verus!
