use vstd::prelude::*;

verus! {

/// How long a starting node may take to become healthy, in seconds.
pub const START_DEADLINE_SECS: u64 = 60;

/// Where a node stands in its lifecycle.
#[derive(PartialEq, Eq, Structural, Clone, Copy, Debug)]
pub enum Phase {
    Stopped,
    Starting,
    Running,
    Failed,
}

/// The lifecycle of one node: its phase and the replica count last asked of
/// its stateful set (0 or 1).
#[derive(PartialEq, Eq, Structural, Clone, Copy, Debug)]
pub struct Lifecycle {
    pub phase: Phase,
    pub replicas: u32,
}

/// What happened: a request of the caller, or the outcome of an action.
#[derive(PartialEq, Eq, Structural, Clone, Copy, Debug)]
pub enum Event {
    StartRequested,
    StopRequested,
    ClearStorageRequested,
    ScaleSucceeded,
    ScaleFailed,
    Healthy,
    HealthTimedOut,
}

/// What the caller has to do next.
#[derive(PartialEq, Eq, Structural, Clone, Copy, Debug)]
pub enum Action {
    /// Set the stateful set's replica count.
    ScaleTo(u32),
    /// Wait, at most this many seconds, until the node is healthy.
    AwaitHealthy(u64),
    /// Delete the node's volume claim.
    DeleteStorage,
    /// The operation succeeded.
    Done,
    /// The operation failed.
    Fail,
}

impl Lifecycle {
    pub open spec fn is_valid(&self) -> bool {
        self.replicas <= 1
    }

    /// The state and action that follow `e`.
    pub open spec fn next(self, e: Event) -> (Lifecycle, Action) {
        match e {
            Event::StartRequested => (Lifecycle { phase: Phase::Starting, replicas: 1 }, Action::ScaleTo(1)),
            Event::StopRequested => (Lifecycle { phase: Phase::Stopped, replicas: 0 }, Action::ScaleTo(0)),
            Event::ClearStorageRequested => (self, Action::DeleteStorage),
            Event::ScaleSucceeded => if self.phase == Phase::Starting {
                (self, Action::AwaitHealthy(START_DEADLINE_SECS))
            } else {
                (self, Action::Done)
            },
            Event::ScaleFailed => (Lifecycle { phase: Phase::Failed, ..self }, Action::Fail),
            Event::Healthy => if self.phase == Phase::Starting {
                (Lifecycle { phase: Phase::Running, ..self }, Action::Done)
            } else {
                (self, Action::Done)
            },
            Event::HealthTimedOut => if self.phase == Phase::Starting {
                (Lifecycle { phase: Phase::Failed, ..self }, Action::Fail)
            } else {
                (self, Action::Done)
            },
        }
    }

    /// The state after a sequence of events.
    pub open spec fn run(self, events: Seq<Event>) -> Lifecycle
        decreases events.len(),
    {
        if events.len() == 0 {
            self
        } else {
            self.next(events[0]).0.run(events.drop_first())
        }
    }

    /// A node that is stopped, with no replica asked for.
    pub fn stopped() -> (r: Lifecycle)
        ensures
            r.phase == Phase::Stopped,
            r.replicas == 0,
    {
        Lifecycle { phase: Phase::Stopped, replicas: 0 }
    }

    /// Takes in `e` and returns what to do next.
    pub fn step(&mut self, e: Event) -> (r: Action)
        ensures
            (*final(self), r) == old(self).next(e),
            old(self).is_valid() ==> final(self).is_valid(),
    {
        match e {
            Event::StartRequested => {
                *self = Lifecycle { phase: Phase::Starting, replicas: 1 };
                Action::ScaleTo(1)
            },
            Event::StopRequested => {
                *self = Lifecycle { phase: Phase::Stopped, replicas: 0 };
                Action::ScaleTo(0)
            },
            Event::ClearStorageRequested => Action::DeleteStorage,
            Event::ScaleSucceeded => {
                if self.phase == Phase::Starting {
                    Action::AwaitHealthy(START_DEADLINE_SECS)
                } else {
                    Action::Done
                }
            },
            Event::ScaleFailed => {
                self.phase = Phase::Failed;
                Action::Fail
            },
            Event::Healthy => {
                if self.phase == Phase::Starting {
                    self.phase = Phase::Running;
                }
                Action::Done
            },
            Event::HealthTimedOut => {
                if self.phase == Phase::Starting {
                    self.phase = Phase::Failed;
                    Action::Fail
                } else {
                    Action::Done
                }
            },
        }
    }
}

/// A start followed by a stop leaves no replica asked for, and the count
/// stays at zero through every later event but another start.
pub proof fn lemma_start_then_stop(l: Lifecycle, later: Seq<Event>)
    requires
        forall|i: int| 0 <= i < later.len() ==> later[i] != Event::StartRequested,
    ensures
        l.run(seq![Event::StartRequested, Event::StopRequested]).replicas == 0,
        l.run(seq![Event::StartRequested, Event::StopRequested] + later).replicas == 0,
{
    let s = seq![Event::StartRequested, Event::StopRequested];
    assert(s.drop_first() =~= seq![Event::StopRequested]);
    assert(s.drop_first().drop_first() =~= Seq::<Event>::empty());
    let l1 = l.next(Event::StartRequested).0;
    assert(l.run(s) == l1.run(s.drop_first()));
    assert(l1.run(s.drop_first()) == l1.next(Event::StopRequested).0.run(Seq::<Event>::empty()));
    let stopped = l.run(s);
    lemma_run_append(l, s, later);
    lemma_no_start_keeps_zero(stopped, later);
}

/// Running `a + b` runs `a`, then `b`.
pub proof fn lemma_run_append(l: Lifecycle, a: Seq<Event>, b: Seq<Event>)
    ensures
        l.run(a + b) == l.run(a).run(b),
    decreases a.len(),
{
    if a.len() == 0 {
        assert(a + b =~= b);
    } else {
        assert((a + b).drop_first() =~= a.drop_first() + b);
        lemma_run_append(l.next(a[0]).0, a.drop_first(), b);
    }
}

/// With no replica asked for, no event but a start asks for one.
pub proof fn lemma_no_start_keeps_zero(l: Lifecycle, events: Seq<Event>)
    requires
        l.replicas == 0,
        forall|i: int| 0 <= i < events.len() ==> events[i] != Event::StartRequested,
    ensures
        l.run(events).replicas == 0,
    decreases events.len(),
{
    if events.len() > 0 {
        let rest = events.drop_first();
        assert forall|i: int| 0 <= i < rest.len() implies rest[i] != Event::StartRequested by {
            assert(rest[i] == events[i + 1]);
        }
        lemma_no_start_keeps_zero(l.next(events[0]).0, rest);
    }
}

/// Stopping twice is stopping once: same state, same action.
pub proof fn lemma_stop_idempotent(l: Lifecycle)
    ensures
        l.next(Event::StopRequested).0.next(Event::StopRequested) == l.next(Event::StopRequested),
        l.run(seq![Event::StopRequested, Event::StopRequested]) == l.run(seq![Event::StopRequested]),
{
    let two = seq![Event::StopRequested, Event::StopRequested];
    let one = seq![Event::StopRequested];
    assert(two.drop_first() =~= one);
    assert(one.drop_first() =~= Seq::<Event>::empty());
    let l1 = l.next(Event::StopRequested).0;
    assert(l.run(one) == l1.run(Seq::<Event>::empty()));
    assert(l.run(two) == l1.run(one));
    assert(l1.run(one) == l1.next(Event::StopRequested).0.run(Seq::<Event>::empty()));
}

} // verus!
