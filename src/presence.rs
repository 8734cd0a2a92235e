use vstd::prelude::*;

verus! {

/// One change in the set of open sessions.
#[derive(Clone, Copy, Debug, PartialEq, Eq, Structural)]
pub enum PresenceEvent {
    Connect,
    Disconnect,
}

/// The count of open sessions after one event, starting from `count`.
///
/// The count stays at zero on a disconnect that no connect preceded, and at
/// the largest machine integer on a connect beyond it.
pub open spec fn presence_step(count: nat, event: PresenceEvent) -> nat {
    match event {
        PresenceEvent::Connect => if count < usize::MAX { count + 1 } else { count },
        PresenceEvent::Disconnect => if count > 0 { (count - 1) as nat } else { 0 },
    }
}

/// The count after a whole sequence of events, starting from `count`.
pub open spec fn presence_after(count: nat, events: Seq<PresenceEvent>) -> nat
    decreases events.len(),
{
    if events.len() == 0 {
        count
    } else {
        presence_step(presence_after(count, events.drop_last()), events.last())
    }
}

/// How many events of the sequence are `event`.
pub open spec fn occurrences(events: Seq<PresenceEvent>, event: PresenceEvent) -> nat
    decreases events.len(),
{
    if events.len() == 0 {
        0
    } else {
        occurrences(events.drop_last(), event) + if events.last() == event { 1nat } else { 0nat }
    }
}

/// A stream in which no prefix holds more disconnects than connects.
pub open spec fn well_paired(events: Seq<PresenceEvent>) -> bool {
    forall|k: int|
        #![trigger events.subrange(0, k)]
        0 <= k <= events.len() ==> occurrences(events.subrange(0, k), PresenceEvent::Disconnect)
            <= occurrences(events.subrange(0, k), PresenceEvent::Connect)
}

proof fn lemma_occurrences_bounded(events: Seq<PresenceEvent>, event: PresenceEvent)
    ensures
        occurrences(events, event) <= events.len(),
    decreases events.len(),
{
    if events.len() > 0 {
        lemma_occurrences_bounded(events.drop_last(), event);
    }
}

proof fn lemma_count_of_paired(events: Seq<PresenceEvent>)
    requires
        well_paired(events),
        events.len() <= usize::MAX,
    ensures
        presence_after(0, events) == occurrences(events, PresenceEvent::Connect) - occurrences(
            events,
            PresenceEvent::Disconnect,
        ),
    decreases events.len(),
{
    if events.len() > 0 {
        let prior = events.drop_last();
        assert forall|k: int| 0 <= k <= prior.len() implies occurrences(
            #[trigger] prior.subrange(0, k),
            PresenceEvent::Disconnect,
        ) <= occurrences(prior.subrange(0, k), PresenceEvent::Connect) by {
            assert(prior.subrange(0, k) == events.subrange(0, k));
        }
        lemma_count_of_paired(prior);
        lemma_occurrences_bounded(prior, PresenceEvent::Connect);
        assert(events.subrange(0, events.len() as int) == events);
    }
}

/// Counting from no open session, a stream of connects and disconnects in
/// which no prefix closes more sessions than it opened leaves, after every
/// prefix, exactly the number of connects minus the number of disconnects of
/// that prefix; that difference is therefore never negative.
pub proof fn presence_matches_open_sessions(events: Seq<PresenceEvent>)
    requires
        well_paired(events),
        events.len() <= usize::MAX,
    ensures
        presence_after(0, events) == occurrences(events, PresenceEvent::Connect) - occurrences(
            events,
            PresenceEvent::Disconnect,
        ),
        forall|k: int|
            #![trigger events.subrange(0, k)]
            0 <= k <= events.len() ==> presence_after(0, events.subrange(0, k)) == occurrences(
                events.subrange(0, k),
                PresenceEvent::Connect,
            ) - occurrences(events.subrange(0, k), PresenceEvent::Disconnect),
{
    lemma_count_of_paired(events);
    assert forall|k: int|
        #![trigger events.subrange(0, k)]
        0 <= k <= events.len() implies presence_after(0, events.subrange(0, k)) == occurrences(
            events.subrange(0, k),
            PresenceEvent::Connect,
        ) - occurrences(events.subrange(0, k), PresenceEvent::Disconnect) by {
        let prefix = events.subrange(0, k);
        assert forall|j: int| 0 <= j <= prefix.len() implies occurrences(
            #[trigger] prefix.subrange(0, j),
            PresenceEvent::Disconnect,
        ) <= occurrences(prefix.subrange(0, j), PresenceEvent::Connect) by {
            assert(prefix.subrange(0, j) == events.subrange(0, j));
        }
        lemma_count_of_paired(prefix);
    }
}

/// The number of sessions that are currently open.
pub struct PresenceCounter {
    count: usize,
}

impl View for PresenceCounter {
    type V = nat;

    closed spec fn view(&self) -> nat {
        self.count as nat
    }
}

impl PresenceCounter {

    /// A counter with no session open.
    pub fn new() -> (r: PresenceCounter)
        ensures
            r@ == 0,
    {
        PresenceCounter { count: 0 }
    }

    /// The number of open sessions.
    pub fn count(&self) -> (r: usize)
        ensures
            r == self@,
    {
        self.count
    }

    /// Records a new session and returns the new count.
    pub fn connect(&mut self) -> (r: usize)
        ensures
            final(self)@ == presence_step(old(self)@, PresenceEvent::Connect),
            r == final(self)@,
    {
        self.count = self.count.saturating_add(1);
        self.count
    }

    /// Records a closed session and returns the new count, which never falls
    /// below zero.
    pub fn disconnect(&mut self) -> (r: usize)
        ensures
            final(self)@ == presence_step(old(self)@, PresenceEvent::Disconnect),
            r == final(self)@,
    {
        self.count = self.count.saturating_sub(1);
        self.count
    }

    /// Records one event and returns the new count.
    pub fn record(&mut self, event: PresenceEvent) -> (r: usize)
        ensures
            final(self)@ == presence_step(old(self)@, event),
            r == final(self)@,
    {
        match event {
            PresenceEvent::Connect => self.connect(),
            PresenceEvent::Disconnect => self.disconnect(),
        }
    }
}

} // verus!
