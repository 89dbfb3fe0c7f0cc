//! The long-poll loop behind a watch.
//!
//! A [`WatchTask`] remembers the last revision that the registry reported and
//! decides, after each outcome of a poll, what to do next: poll again, wait
//! before polling again, or stop. Its driver performs the polls, hands each
//! value to the receiver and reports whether the receiver took it.
use vstd::prelude::*;

verus! {

/// Seconds to wait after a failed poll.
pub const WATCH_DELAY: u64 = 5;

/// A value that carries the revision at which the registry produced it.
pub trait RevisionResult {
    /// The revision of the value.
    spec fn revision(&self) -> u64;

    fn get_revision(&self) -> (r: u64)
        ensures
            r == self.revision(),
    ;
}

#[derive(Debug, Clone, Copy, PartialEq, Eq, Structural)]
pub enum WatchPhase {
    /// A poll is in flight.
    Polling,
    /// The task waits before it polls again.
    Backoff,
    /// The task has ended.
    Terminated,
}

/// What the driver of a watch reports.
#[derive(Debug, Clone, Copy, PartialEq, Eq, Structural)]
pub enum WatchEvent {
    /// The handle was dropped.
    Cancelled,
    /// The poll brought a value of this revision, and the receiver took it or
    /// is gone.
    Value { revision: u64, delivered: bool },
    /// The poll ran out with no change, or the wait is over.
    Unchanged,
    /// The poll failed.
    Failed,
}

/// What the driver of a watch does next.
#[derive(Debug, Clone, Copy, PartialEq, Eq, Structural)]
pub enum WatchAction {
    /// Poll, from this revision on.
    Watch(Option<u64>),
    /// Wait this many seconds.
    Wait(u64),
    /// End the task.
    Stop,
}

/// The state of a watch.
#[derive(Debug, Clone, Copy, PartialEq, Eq, Structural)]
pub struct WatchTask {
    pub last_revision: Option<u64>,
    pub phase: WatchPhase,
}

/// The number that an optional revision stands for: none counts as zero.
pub open spec fn revision_value(revision: Option<u64>) -> u64 {
    match revision {
        Some(r) => r,
        None => 0,
    }
}

impl WatchTask {
    /// The state in which the next poll or wait runs, and the action that starts it.
    pub open spec fn next(self, to_delay: bool) -> (WatchTask, WatchAction) {
        if to_delay {
            (WatchTask { phase: WatchPhase::Backoff, ..self }, WatchAction::Wait(WATCH_DELAY))
        } else {
            (
                WatchTask { phase: WatchPhase::Polling, ..self },
                WatchAction::Watch(self.last_revision),
            )
        }
    }

    /// The state after an event, and the action that it asks for.
    pub open spec fn step(self, event: WatchEvent) -> (WatchTask, WatchAction) {
        if self.phase == WatchPhase::Terminated {
            (self, WatchAction::Stop)
        } else {
            match event {
                WatchEvent::Cancelled => (
                    WatchTask { phase: WatchPhase::Terminated, ..self },
                    WatchAction::Stop,
                ),
                WatchEvent::Value { revision, delivered } => {
                    let seen = WatchTask {
                        last_revision: if revision > 0 {
                            Some(revision)
                        } else {
                            self.last_revision
                        },
                        ..self
                    };
                    if delivered {
                        seen.next(false)
                    } else {
                        (WatchTask { phase: WatchPhase::Terminated, ..seen }, WatchAction::Stop)
                    }
                },
                WatchEvent::Unchanged => self.next(false),
                WatchEvent::Failed => self.next(true),
            }
        }
    }

    /// The state after a sequence of events.
    pub open spec fn run(self, events: Seq<WatchEvent>) -> WatchTask
        decreases events.len(),
    {
        if events.len() == 0 {
            self
        } else {
            self.run(events.drop_last()).step(events.last()).0
        }
    }

    /// Starts a watch: the first poll asks from `revision` on.
    pub fn spawn(revision: Option<u64>) -> (r: (WatchTask, WatchAction))
        ensures
            r.0 == (WatchTask { last_revision: revision, phase: WatchPhase::Polling }),
            r.1 == WatchAction::Watch(revision),
    {
        (
            WatchTask { last_revision: revision, phase: WatchPhase::Polling },
            WatchAction::Watch(revision),
        )
    }

    /// Schedules the next poll: after the delay, or at once from the last revision.
    pub fn watch_once(&mut self, to_delay: bool) -> (action: WatchAction)
        ensures
            (*final(self), action) == old(self).next(to_delay),
    {
        if to_delay {
            self.phase = WatchPhase::Backoff;
            WatchAction::Wait(WATCH_DELAY)
        } else {
            self.phase = WatchPhase::Polling;
            WatchAction::Watch(self.last_revision)
        }
    }

    /// Takes one event and says what to do next.
    pub fn poll(&mut self, event: WatchEvent) -> (action: WatchAction)
        ensures
            (*final(self), action) == old(self).step(event),
    {
        if self.phase == WatchPhase::Terminated {
            return WatchAction::Stop;
        }
        match event {
            WatchEvent::Cancelled => {
                self.phase = WatchPhase::Terminated;
                WatchAction::Stop
            },
            WatchEvent::Value { revision, delivered } => {
                if revision > 0 {
                    self.last_revision = Some(revision);
                }
                if !delivered {
                    self.phase = WatchPhase::Terminated;
                    return WatchAction::Stop;
                }
                self.watch_once(false)
            },
            WatchEvent::Unchanged => self.watch_once(false),
            WatchEvent::Failed => self.watch_once(true),
        }
    }

    /// Whether the task has ended.
    pub fn is_terminated(&self) -> (r: bool)
        ensures
            r == (self.phase == WatchPhase::Terminated),
    {
        self.phase == WatchPhase::Terminated
    }
}

/// The event for a value that a poll brought.
pub fn observe<T: RevisionResult>(value: &T, delivered: bool) -> (event: WatchEvent)
    ensures
        event == (WatchEvent::Value { revision: value.revision(), delivered }),
{
    WatchEvent::Value { revision: value.get_revision(), delivered }
}

/// The events report revisions that never fall: each positive revision is at
/// least `floor` and at least every positive revision reported before it.
pub open spec fn rising(events: Seq<WatchEvent>, floor: u64) -> bool {
    &&& forall|i: int|
        0 <= i < events.len() ==> (#[trigger] events[i] matches WatchEvent::Value { revision, .. }
            ==> revision == 0 || revision >= floor)
    &&& forall|i: int, j: int|
        #![trigger events[i], events[j]]
        0 <= i < j < events.len() ==> (events[i] matches WatchEvent::Value { revision: a, .. }
            ==> (events[j] matches WatchEvent::Value { revision: b, .. } ==> b == 0 || a <= b))
}

/// A value that reports revision zero leaves the stored revision as it was,
/// one that reports a positive revision stores it, and no other event
/// touches the stored revision.
pub proof fn step_stores_positive_revisions(task: WatchTask, event: WatchEvent)
    ensures
        task.step(event).0.last_revision == match event {
            WatchEvent::Value { revision, .. } if revision > 0 && task.phase
                != WatchPhase::Terminated => Some(revision),
            _ => task.last_revision,
        },
        task.phase == WatchPhase::Terminated ==> task.step(event) == (task, WatchAction::Stop),
{
}

/// While the registry reports revisions that never fall, the stored revision
/// never falls either, over any stretch of the task's life.
pub proof fn stored_revision_never_falls(task: WatchTask, events: Seq<WatchEvent>, m: int)
    requires
        rising(events, revision_value(task.last_revision)),
        0 <= m <= events.len(),
    ensures
        revision_value(task.run(events.take(m)).last_revision) <= revision_value(
            task.run(events).last_revision,
        ),
        revision_value(task.last_revision) <= revision_value(task.run(events).last_revision),
    decreases events.len() - m,
{
    lemma_run_bounds(task, events);
    if m < events.len() {
        stored_revision_never_falls(task, events, m + 1);
        let a = events.take(m);
        let b = events.take(m + 1);
        assert(b.drop_last() =~= a);
        assert(b.last() == events[m]);
        lemma_run_bounds(task, a);
        match events[m] {
            WatchEvent::Value { revision, .. } => {
                if revision > 0 {
                    assert forall|i: int| 0 <= i < a.len() implies (#[trigger] a[i] matches WatchEvent::Value {
                        revision: r,
                        ..
                    } ==> r <= revision) by {
                        assert(a[i] == events[i]);
                    }
                }
            },
            _ => {},
        }
    } else {
        assert(events.take(m) =~= events);
    }
}

/// The stored revision after a run is the one before it or one that a value
/// of the run reported.
proof fn lemma_run_bounds(task: WatchTask, events: Seq<WatchEvent>)
    ensures
        task.run(events).last_revision == task.last_revision || exists|i: int|
            0 <= i < events.len() && (#[trigger] events[i] matches WatchEvent::Value {
                revision,
                ..
            } && revision > 0 && task.run(events).last_revision == Some(revision)),
    decreases events.len(),
{
    if events.len() > 0 {
        let d = events.drop_last();
        lemma_run_bounds(task, d);
        let before = task.run(d);
        let after = before.step(events.last()).0;
        if after.last_revision != before.last_revision {
            assert(events[events.len() - 1] == events.last());
        } else if before.last_revision != task.last_revision {
            let i = choose|i: int|
                0 <= i < d.len() && (#[trigger] d[i] matches WatchEvent::Value { revision, .. }
                    && revision > 0 && before.last_revision == Some(revision));
            assert(events[i] == d[i]);
        }
    }
}

} // verus!
