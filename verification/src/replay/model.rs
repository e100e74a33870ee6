//! The replay as a state machine over plain values: its states, the action
//! that each state asks for, and the state that each event leads to.

use crate::replay::{
    first_match, Action, Event, Failure, Outcome, Phase, Skipped, SETTLE_DELAY_MS,
};
use crate::window_handler::WindowRecord;
use vstd::prelude::*;

verus! {

/// The state of a replay: the recorded windows, one outcome for each record
/// that is done, and where the work on the next record stands. `aborted`
/// says that no session could be had, so that nothing is attempted.
pub struct Replay {
    pub records: Seq<WindowRecord>,
    pub outcomes: Seq<Outcome>,
    pub phase: Phase,
    pub aborted: bool,
}

/// The outcomes after every record in turn that names no executable has
/// been skipped: the list is extended by `Skipped::NoPath` until a record
/// with a path is in turn, or none is left.
pub open spec fn skip_pathless(records: Seq<WindowRecord>, outcomes: Seq<Outcome>) -> Seq<Outcome>
    decreases records.len() - outcomes.len(),
{
    if outcomes.len() < records.len() && records[outcomes.len() as int].executable_path.len() == 0 {
        skip_pathless(records, outcomes.push(Outcome::Skipped(Skipped::NoPath)))
    } else {
        outcomes
    }
}

impl Phase {
    /// How many events the record in turn has taken to get to this phase.
    pub open spec fn rank(self) -> int {
        match self {
            Phase::Launching => 0,
            Phase::AwaitingWindow { pid } => 1,
            Phase::Locating { pid } => 2,
            Phase::Relocating { hwnd } => 3,
        }
    }
}

impl Replay {
    /// Whether every record has its outcome, or the replay was aborted.
    pub open spec fn done(self) -> bool {
        self.aborted || self.outcomes.len() >= self.records.len()
    }

    /// What holds of every state that a replay goes through: no more
    /// outcomes than records; none at all once aborted; a record in turn
    /// names an executable; and the records that were skipped for want of a
    /// path are exactly those that name none.
    pub open spec fn wf(self) -> bool {
        &&& self.outcomes.len() <= self.records.len()
        &&& self.aborted ==> self.outcomes.len() == 0
        &&& !self.done() ==> self.records[self.outcomes.len() as int].executable_path.len() > 0
        &&& forall|i: int|
            0 <= i < self.outcomes.len() ==> ((#[trigger] self.records[i]).executable_path.len()
                == 0 <==> self.outcomes[i] == Outcome::Skipped(Skipped::NoPath))
    }

    /// The state in which a replay starts: aborted if no session stands,
    /// else with the leading records that name no executable skipped.
    pub open spec fn begin(connected: bool, records: Seq<WindowRecord>) -> Replay {
        Replay {
            records,
            outcomes: if connected {
                skip_pathless(records, Seq::empty())
            } else {
                Seq::empty()
            },
            phase: Phase::Launching,
            aborted: !connected,
        }
    }

    /// The state after the record in turn got its outcome: the outcome is
    /// final, and the next record that names an executable is in turn.
    pub open spec fn conclude(self, outcome: Outcome) -> Replay {
        Replay {
            outcomes: skip_pathless(self.records, self.outcomes.push(outcome)),
            phase: Phase::Launching,
            ..self
        }
    }

    /// What the driver is to do in this state.
    pub open spec fn action(self) -> Action {
        if self.done() {
            Action::Finish
        } else {
            let record = self.records[self.outcomes.len() as int];
            match self.phase {
                Phase::Launching => Action::Launch { path: record.executable_path },
                Phase::AwaitingWindow { pid } => Action::Wait { millis: SETTLE_DELAY_MS },
                Phase::Locating { pid } => Action::Enumerate,
                Phase::Relocating { hwnd } => Action::Relocate {
                    hwnd,
                    desktop_index: record.virtual_desktop_index,
                },
            }
        }
    }

    /// Whether an event answers the action that this state asks for.
    pub open spec fn expects(self, event: Event) -> bool {
        !self.done() && match self.phase {
            Phase::Launching => event is Launched,
            Phase::AwaitingWindow { pid } => event is Settled,
            Phase::Locating { pid } => event is Enumerated,
            Phase::Relocating { hwnd } => event is Relocated,
        }
    }

    /// The state after an event. An event that does not answer the action
    /// asked for changes nothing, and so does any event once the replay is
    /// done.
    pub open spec fn step(self, event: Event) -> Replay {
        if !self.expects(event) {
            self
        } else {
            match event {
                Event::Launched(None) => self.conclude(Outcome::Failed(Failure::LaunchError)),
                Event::Launched(Some(pid)) => Replay {
                    phase: Phase::AwaitingWindow { pid },
                    ..self
                },
                Event::Settled => Replay {
                    phase: Phase::Locating { pid: self.phase->AwaitingWindow_pid },
                    ..self
                },
                Event::Enumerated(windows) => match first_match(
                    windows,
                    self.phase->Locating_pid,
                ) {
                    Some(i) => Replay {
                        phase: Phase::Relocating { hwnd: windows[i].hwnd },
                        ..self
                    },
                    None => self.conclude(Outcome::Failed(Failure::WindowNotFound)),
                },
                Event::Relocated(Ok(_)) => self.conclude(Outcome::Succeeded),
                Event::Relocated(Err(reason)) => self.conclude(
                    Outcome::Failed(Failure::RelocationError(reason)),
                ),
            }
        }
    }

    /// The state after a series of events, taken in order.
    pub open spec fn run(self, events: Seq<Event>) -> Replay
        decreases events.len(),
    {
        if events.len() == 0 {
            self
        } else {
            self.run(events.drop_last()).step(events.last())
        }
    }

    /// How many events the replay can still take before it is done, at most:
    /// four for each record not yet begun, fewer for the one in work.
    pub open spec fn remaining(self) -> nat {
        if self.done() {
            0
        } else {
            (4 * (self.records.len() - self.outcomes.len()) - self.phase.rank()) as nat
        }
    }

    /// Whether `next` is this state with the record in turn one phase on and
    /// no outcome added.
    pub open spec fn took_next_phase(self, next: Replay) -> bool {
        &&& next.outcomes == self.outcomes
        &&& next.phase.rank() == self.phase.rank() + 1
    }

    /// Whether `next` is this state after the record in turn got its
    /// outcome: there are more outcomes, every record passed over after the
    /// one in turn names no executable, and a launch is what comes next.
    pub open spec fn took_next_record(self, next: Replay) -> bool {
        &&& next.outcomes.len() > self.outcomes.len()
        &&& next.phase == Phase::Launching
        &&& forall|i: int|
            self.outcomes.len() < i < next.outcomes.len() ==> (
            #[trigger] self.records[i]).executable_path.len() == 0
    }

    /// Whether, after the first `n` of the events, the launch of the record
    /// at place `j` is what a replay of `records` asks for, every earlier
    /// record having its outcome and no later one.
    pub open spec fn launch_asked_at(
        records: Seq<WindowRecord>,
        events: Seq<Event>,
        n: int,
        j: int,
    ) -> bool {
        let then = Replay::begin(true, records).run(events.take(n));
        &&& 0 <= n <= events.len()
        &&& 0 <= j < records.len()
        &&& then.outcomes.len() == j
        &&& then.action() == (Action::Launch { path: records[j].executable_path })
    }
}

} // verus!
