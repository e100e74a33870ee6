//! Replay of a snapshot: for each recorded window, launch its executable,
//! let it settle, find its window among the open ones and move that window
//! to the recorded desktop.
//!
//! The engine does none of this itself. It is a state machine: it names the
//! next thing to do, is told what came of it, and keeps one outcome per
//! recorded window. Whoever drives it launches, waits, enumerates and moves.

pub mod laws;
pub mod model;

use crate::commands::{records, WindowInfoSharable};
use crate::replay::laws::{lemma_begin_is_wf, lemma_first_match_is_unique, lemma_step_keeps_wf};
use crate::replay::model::{skip_pathless, Replay};
use crate::window_handler::{live_windows, DesktopSession, LiveWindow, SessionError, WindowInfo};
use vstd::prelude::*;

verus! {

/// How long a launched application is given to show its window, in
/// milliseconds.
pub const SETTLE_DELAY_MS: u64 = 5000;

/// Why a recorded window was not taken up.
#[derive(Clone, Copy, Debug, PartialEq, Eq)]
pub enum Skipped {
    /// The record names no executable.
    NoPath,
}

/// Why a recorded window could not be put back.
#[derive(Clone, Debug, PartialEq, Eq)]
pub enum Failed {
    /// The system refused to start the executable.
    LaunchError,
    /// After the settle delay no open window belonged to the launched process.
    WindowNotFound,
    /// The window was found and could not be moved; the text says why.
    RelocationError(String),
}

/// What came of one recorded window.
#[derive(Clone, Debug, PartialEq, Eq)]
pub enum PerWindowOutcome {
    Succeeded,
    Failed(Failed),
    Skipped(Skipped),
}

/// The model of [`Failed`].
pub enum Failure {
    LaunchError,
    WindowNotFound,
    RelocationError(Seq<char>),
}

/// The model of [`PerWindowOutcome`].
pub enum Outcome {
    Succeeded,
    Failed(Failure),
    Skipped(Skipped),
}

impl View for Failed {
    type V = Failure;

    open spec fn view(&self) -> Failure {
        match *self {
            Failed::LaunchError => Failure::LaunchError,
            Failed::WindowNotFound => Failure::WindowNotFound,
            Failed::RelocationError(reason) => Failure::RelocationError(reason@),
        }
    }
}

impl View for PerWindowOutcome {
    type V = Outcome;

    open spec fn view(&self) -> Outcome {
        match *self {
            PerWindowOutcome::Succeeded => Outcome::Succeeded,
            PerWindowOutcome::Failed(why) => Outcome::Failed(why@),
            PerWindowOutcome::Skipped(why) => Outcome::Skipped(why),
        }
    }
}

/// The models of a list of outcomes, in the list's order.
pub open spec fn outcomes_of(outcomes: Seq<PerWindowOutcome>) -> Seq<Outcome> {
    outcomes.map_values(|o: PerWindowOutcome| o@)
}

/// Where the work on the record in turn stands.
#[derive(Clone, Copy, Debug, PartialEq, Eq)]
pub enum Phase {
    /// Its executable is to be launched.
    Launching,
    /// The process runs and is given time to show a window.
    AwaitingWindow { pid: u32 },
    /// The open windows are to be searched for one of the process.
    Locating { pid: u32 },
    /// The window found is to be moved to the recorded desktop.
    Relocating { hwnd: isize },
}

/// The model of [`ReplayAction`].
pub enum Action {
    Launch { path: Seq<char> },
    Wait { millis: u64 },
    Enumerate,
    Relocate { hwnd: isize, desktop_index: u32 },
    Finish,
}

/// What the driver is to do next.
#[derive(Clone, Debug, PartialEq, Eq)]
pub enum ReplayAction {
    /// Start the executable at this path, with no arguments.
    Launch { path: String },
    /// Do nothing for this many milliseconds.
    Wait { millis: u64 },
    /// Enumerate the open windows anew.
    Enumerate,
    /// Move this window to the desktop at this position.
    Relocate { hwnd: isize, desktop_index: u32 },
    /// Nothing is left to do.
    Finish,
}

impl View for ReplayAction {
    type V = Action;

    open spec fn view(&self) -> Action {
        match *self {
            ReplayAction::Launch { path } => Action::Launch { path: path@ },
            ReplayAction::Wait { millis } => Action::Wait { millis },
            ReplayAction::Enumerate => Action::Enumerate,
            ReplayAction::Relocate { hwnd, desktop_index } => Action::Relocate {
                hwnd,
                desktop_index,
            },
            ReplayAction::Finish => Action::Finish,
        }
    }
}

/// The model of [`ReplayEvent`].
pub enum Event {
    Launched(Option<u32>),
    Settled,
    Enumerated(Seq<LiveWindow>),
    Relocated(Result<(), Seq<char>>),
}

/// What came of the action that the engine asked for.
#[derive(Debug, PartialEq, Eq)]
pub enum ReplayEvent {
    /// The launch gave this process id, or was refused.
    Launched(Option<u32>),
    /// The settle delay is over.
    Settled,
    /// These windows are open now, in the order of the walk.
    Enumerated(Vec<WindowInfo>),
    /// The move went through, or failed for the reason given.
    Relocated(Result<(), String>),
}

impl View for ReplayEvent {
    type V = Event;

    open spec fn view(&self) -> Event {
        match *self {
            ReplayEvent::Launched(pid) => Event::Launched(pid),
            ReplayEvent::Settled => Event::Settled,
            ReplayEvent::Enumerated(windows) => Event::Enumerated(live_windows(windows@)),
            ReplayEvent::Relocated(result) => Event::Relocated(
                match result {
                    Ok(_) => Ok(()),
                    Err(reason) => Err(reason@),
                },
            ),
        }
    }
}

/// Whether `i` is the place of the first window of the process `pid`.
pub open spec fn is_first_match(windows: Seq<LiveWindow>, pid: u32, i: int) -> bool {
    &&& 0 <= i < windows.len()
    &&& windows[i].record.process_id == pid
    &&& forall|j: int| 0 <= j < i ==> (#[trigger] windows[j]).record.process_id != pid
}

/// The place of the first window that belongs to the process `pid`, in the
/// order of the walk, or `None` where the process owns none of them.
pub open spec fn first_match(windows: Seq<LiveWindow>, pid: u32) -> Option<int> {
    if exists|i: int| is_first_match(windows, pid, i) {
        Some(choose|i: int| is_first_match(windows, pid, i))
    } else {
        None
    }
}

/// Finds the window of a launched process: the first one, in the order of
/// the walk, whose process id is `pid`. A process with several windows is
/// matched by the first of them, which need not be its main window.
pub fn select_window(windows: &Vec<WindowInfo>, pid: u32) -> (found: Option<usize>)
    ensures
        found matches Some(i) ==> first_match(live_windows(windows@), pid) == Some(i as int),
        found is None ==> first_match(live_windows(windows@), pid) is None,
{
    let ghost live = live_windows(windows@);
    let mut i: usize = 0;
    while i < windows.len()
        invariant
            i <= windows.len(),
            live == live_windows(windows@),
            forall|j: int| 0 <= j < i ==> (#[trigger] live[j]).record.process_id != pid,
        decreases windows.len() - i,
    {
        if windows[i].process_id == pid {
            proof {
                let c = choose|c: int| is_first_match(live, pid, c);
                lemma_first_match_is_unique(live, pid, i as int, c);
            }
            return Some(i);
        }
        i += 1;
    }
    None
}

/// The replay engine: the state of one replay of one snapshot. It is always
/// in a state that [`Replay::wf`] accepts.
pub struct ReplayEngine {
    records: Vec<WindowInfoSharable>,
    outcomes: Vec<PerWindowOutcome>,
    phase: Phase,
    aborted: bool,
}

impl View for ReplayEngine {
    type V = Replay;

    closed spec fn view(&self) -> Replay {
        Replay {
            records: records(self.records@),
            outcomes: outcomes_of(self.outcomes@),
            phase: self.phase,
            aborted: self.aborted,
        }
    }
}

impl ReplayEngine {
    #[verifier::type_invariant]
    spec fn in_order(self) -> bool {
        self@.wf()
    }

    /// Gives the records in turn that name no executable their outcome, and
    /// puts the next record that names one in turn.
    fn settle(records: Vec<WindowInfoSharable>, outcomes: Vec<PerWindowOutcome>) -> (engine:
        ReplayEngine)
        requires
            outcomes@.len() <= records@.len(),
            forall|i: int|
                0 <= i < outcomes@.len() ==> ((#[trigger] records@[i]).path@.len() == 0
                    <==> outcomes@[i]@ == Outcome::Skipped(Skipped::NoPath)),
        ensures
            engine@ == (Replay {
                records: crate::commands::records(records@),
                outcomes: skip_pathless(
                    crate::commands::records(records@),
                    outcomes_of(outcomes@),
                ),
                phase: Phase::Launching,
                aborted: false,
            }),
    {
        let ghost model = crate::commands::records(records@);
        let ghost given = outcomes_of(outcomes@);
        let mut outcomes = outcomes;
        while outcomes.len() < records.len() && records[outcomes.len()].path.as_str().is_empty()
            invariant
                model == crate::commands::records(records@),
                outcomes@.len() <= records@.len(),
                skip_pathless(model, outcomes_of(outcomes@)) == skip_pathless(model, given),
                forall|i: int|
                    0 <= i < outcomes@.len() ==> ((#[trigger] records@[i]).path@.len() == 0
                        <==> outcomes@[i]@ == Outcome::Skipped(Skipped::NoPath)),
            decreases records.len() - outcomes.len(),
        {
            let ghost before = outcomes_of(outcomes@);
            outcomes.push(PerWindowOutcome::Skipped(Skipped::NoPath));
            proof {
                assert(outcomes_of(outcomes@) =~= before.push(Outcome::Skipped(Skipped::NoPath)));
            }
        }
        ReplayEngine { records, outcomes, phase: Phase::Launching, aborted: false }
    }

    /// Gives the record in turn its outcome and moves on.
    fn conclude(self, outcome: PerWindowOutcome) -> (engine: ReplayEngine)
        requires
            !self@.done(),
            outcome@ != Outcome::Skipped(Skipped::NoPath),
        ensures
            engine@ == self@.conclude(outcome@),
    {
        proof {
            use_type_invariant(&self);
        }
        let ghost model = self@;
        let ReplayEngine { records, outcomes, phase, aborted } = self;
        let mut outcomes = outcomes;
        outcomes.push(outcome);
        proof {
            assert(outcomes_of(outcomes@) =~= model.outcomes.push(outcome@));
            assert forall|i: int| 0 <= i < outcomes@.len() implies ((
            #[trigger] records@[i]).path@.len() == 0 <==> outcomes@[i]@ == Outcome::Skipped(
                Skipped::NoPath,
            )) by {
                assert(model.records[i] == records@[i]@);
            }
        }
        ReplayEngine::settle(records, outcomes)
    }

    /// Starts the replay of the given records. Without a session the replay
    /// is aborted from the start; with one, the first record that names an
    /// executable is in turn.
    pub fn start(
        session: &Result<DesktopSession, SessionError>,
        records: Vec<WindowInfoSharable>,
    ) -> (engine: ReplayEngine)
        ensures
            engine@ == Replay::begin(session is Ok, crate::commands::records(records@)),
            engine@.wf(),
    {
        proof {
            lemma_begin_is_wf(session is Ok, crate::commands::records(records@));
        }
        match session {
            Ok(_) => {
                let engine = ReplayEngine::settle(records, Vec::new());
                assert(outcomes_of(Seq::<PerWindowOutcome>::empty()) =~= Seq::<Outcome>::empty());
                engine
            },
            Err(_) => {
                let engine = ReplayEngine {
                    records,
                    outcomes: Vec::new(),
                    phase: Phase::Launching,
                    aborted: true,
                };
                assert(engine@.outcomes =~= Seq::<Outcome>::empty());
                engine
            },
        }
    }

    /// Whether nothing is left to do.
    pub fn is_done(&self) -> (done: bool)
        ensures
            done == self@.done(),
            self@.wf(),
    {
        proof {
            use_type_invariant(self);
        }
        self.aborted || self.outcomes.len() >= self.records.len()
    }

    /// What the driver is to do next.
    pub fn next_action(&self) -> (action: ReplayAction)
        ensures
            action@ == self@.action(),
            self@.wf(),
    {
        proof {
            use_type_invariant(self);
        }
        if self.is_done() {
            ReplayAction::Finish
        } else {
            let record = &self.records[self.outcomes.len()];
            match self.phase {
                Phase::Launching => ReplayAction::Launch { path: record.path.clone() },
                Phase::AwaitingWindow { pid } => ReplayAction::Wait { millis: SETTLE_DELAY_MS },
                Phase::Locating { pid } => ReplayAction::Enumerate,
                Phase::Relocating { hwnd } => ReplayAction::Relocate {
                    hwnd,
                    desktop_index: record.desktop_index,
                },
            }
        }
    }

    /// Takes what came of the action asked for, and gives the state after
    /// it. An event that was not asked for leaves the state as it is.
    pub fn step(self, event: ReplayEvent) -> (next: ReplayEngine)
        ensures
            next@ == self@.step(event@),
            next@.wf(),
    {
        proof {
            use_type_invariant(&self);
            lemma_step_keeps_wf(self@, event@);
        }
        if self.is_done() {
            return self;
        }
        match self.phase {
            Phase::Launching => match event {
                ReplayEvent::Launched(None) => self.conclude(
                    PerWindowOutcome::Failed(Failed::LaunchError),
                ),
                ReplayEvent::Launched(Some(pid)) => self.enter(Phase::AwaitingWindow { pid }),
                _ => self,
            },
            Phase::AwaitingWindow { pid } => match event {
                ReplayEvent::Settled => self.enter(Phase::Locating { pid }),
                _ => self,
            },
            Phase::Locating { pid } => match event {
                ReplayEvent::Enumerated(windows) => match select_window(&windows, pid) {
                    Some(i) => {
                        let hwnd = windows[i].hwnd;
                        self.enter(Phase::Relocating { hwnd })
                    },
                    None => self.conclude(PerWindowOutcome::Failed(Failed::WindowNotFound)),
                },
                _ => self,
            },
            Phase::Relocating { hwnd } => match event {
                ReplayEvent::Relocated(Ok(_)) => self.conclude(PerWindowOutcome::Succeeded),
                ReplayEvent::Relocated(Err(reason)) => self.conclude(
                    PerWindowOutcome::Failed(Failed::RelocationError(reason)),
                ),
                _ => self,
            },
        }
    }

    /// Moves the work on the record in turn to its next phase.
    fn enter(self, phase: Phase) -> (engine: ReplayEngine)
        requires
            !self@.done(),
        ensures
            engine@ == (Replay { phase, ..self@ }),
    {
        proof {
            use_type_invariant(&self);
        }
        let ReplayEngine { records, outcomes, phase: _, aborted } = self;
        ReplayEngine { records, outcomes, phase, aborted }
    }

    /// The recorded windows, in the order in which they are replayed.
    pub fn records(&self) -> (all: &Vec<WindowInfoSharable>)
        ensures
            crate::commands::records(all@) == self@.records,
    {
        &self.records
    }

    /// The outcomes given so far, in the order of the records.
    pub fn outcomes(&self) -> (given: &Vec<PerWindowOutcome>)
        ensures
            outcomes_of(given@) == self@.outcomes,
            self@.wf(),
    {
        proof {
            use_type_invariant(self);
        }
        &self.outcomes
    }

    /// Ends the replay and hands out what came of it: the session error if
    /// no session stood, else the outcomes given so far, one for each record
    /// and in the records' order if the replay was done.
    pub fn finish(self) -> (result: Result<Vec<PerWindowOutcome>, SessionError>)
        ensures
            self@.aborted ==> result == Err::<Vec<PerWindowOutcome>, SessionError>(
                SessionError::SubsystemUnavailable,
            ),
            !self@.aborted ==> result is Ok && outcomes_of(result->Ok_0@) == self@.outcomes,
            !self@.aborted && self@.done() ==> result->Ok_0@.len() == self@.records.len(),
    {
        proof {
            use_type_invariant(&self);
        }
        if self.aborted {
            Err(SessionError::SubsystemUnavailable)
        } else {
            Ok(self.outcomes)
        }
    }
}

} // verus!
