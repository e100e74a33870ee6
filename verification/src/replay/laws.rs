//! What holds of every replay, whatever the launches, walks and moves give.

use crate::replay::model::{skip_pathless, Replay};
use crate::replay::{
    first_match, is_first_match, Action, Event, Failure, Outcome, Phase, Skipped,
};
use crate::window_handler::{LiveWindow, WindowRecord};
use vstd::prelude::*;

verus! {

/// At most one place is that of the first match.
pub proof fn lemma_first_match_is_unique(windows: Seq<LiveWindow>, pid: u32, i: int, j: int)
    requires
        is_first_match(windows, pid, i),
        is_first_match(windows, pid, j),
    ensures
        i == j,
{
}

/// Skipping keeps what was there and adds only `Skipped::NoPath`, one for
/// each record without a path that was in turn; it stops at a record with a
/// path or at the end.
pub proof fn lemma_skip_pathless(records: Seq<WindowRecord>, outcomes: Seq<Outcome>)
    requires
        outcomes.len() <= records.len(),
    ensures
        outcomes.len() <= skip_pathless(records, outcomes).len() <= records.len(),
        skip_pathless(records, outcomes).take(outcomes.len() as int) == outcomes,
        forall|i: int|
            outcomes.len() <= i < skip_pathless(records, outcomes).len() ==> (
            #[trigger] records[i]).executable_path.len() == 0 && skip_pathless(records, outcomes)[i]
                == Outcome::Skipped(Skipped::NoPath),
        skip_pathless(records, outcomes).len() < records.len() ==> records[skip_pathless(
            records,
            outcomes,
        ).len() as int].executable_path.len() > 0,
    decreases records.len() - outcomes.len(),
{
    let skipped = skip_pathless(records, outcomes);
    if outcomes.len() < records.len() && records[outcomes.len() as int].executable_path.len() == 0 {
        let more = outcomes.push(Outcome::Skipped(Skipped::NoPath));
        lemma_skip_pathless(records, more);
        assert forall|i: int| outcomes.len() <= i < skipped.len() implies (
        #[trigger] records[i]).executable_path.len() == 0 && skipped[i] == Outcome::Skipped(
            Skipped::NoPath,
        ) by {
            if i == outcomes.len() {
                assert(skipped.take(more.len() as int)[i] == more[i]);
            }
        }
    }
}

/// A replay starts in a state that is in order.
pub proof fn lemma_begin_is_wf(connected: bool, records: Seq<WindowRecord>)
    ensures
        Replay::begin(connected, records).wf(),
        Replay::begin(connected, records).records == records,
        Replay::begin(connected, records).aborted == !connected,
{
    lemma_skip_pathless(records, Seq::empty());
}

/// Giving the record in turn an outcome other than `Skipped::NoPath` keeps
/// the state in order, keeps the earlier outcomes and puts the new one at
/// the record's place. Only records that name no executable are passed over
/// on the way to the next one in turn.
pub proof fn lemma_conclude(s: Replay, outcome: Outcome)
    requires
        s.wf(),
        !s.done(),
        outcome != Outcome::Skipped(Skipped::NoPath),
    ensures
        s.conclude(outcome).wf(),
        s.conclude(outcome).outcomes.take(s.outcomes.len() as int) == s.outcomes,
        s.conclude(outcome).outcomes[s.outcomes.len() as int] == outcome,
        s.took_next_record(s.conclude(outcome)),
{
    let pushed = s.outcomes.push(outcome);
    let after = s.conclude(outcome);
    lemma_skip_pathless(s.records, pushed);
    assert(after.outcomes[s.outcomes.len() as int] == outcome) by {
        assert(after.outcomes.take(pushed.len() as int)[s.outcomes.len() as int]
            == pushed[s.outcomes.len() as int]);
    }
    assert forall|i: int| 0 <= i < after.outcomes.len() implies ((
    #[trigger] after.records[i]).executable_path.len() == 0 <==> after.outcomes[i]
        == Outcome::Skipped(Skipped::NoPath)) by {
        if i < s.outcomes.len() {
            assert(after.outcomes.take(s.outcomes.len() as int)[i] == s.outcomes[i]);
        }
    }
}

/// One event keeps the state in order. It changes neither the records nor
/// whether the replay is aborted, and no outcome once given: outcomes are
/// final, and there are no retries. An event that was not asked for changes
/// nothing at all; one that was asked for takes the record in turn to its
/// next phase, or gives it its outcome and puts the next record in turn.
pub proof fn lemma_step_keeps_wf(s: Replay, event: Event)
    requires
        s.wf(),
    ensures
        s.step(event).wf(),
        s.step(event).records == s.records,
        s.step(event).aborted == s.aborted,
        s.step(event).outcomes.len() >= s.outcomes.len(),
        s.step(event).outcomes.take(s.outcomes.len() as int) == s.outcomes,
        !s.expects(event) ==> s.step(event) == s,
        s.expects(event) ==> s.took_next_phase(s.step(event)) || s.took_next_record(s.step(event)),
{
    if s.expects(event) {
        match event {
            Event::Launched(None) => {
                lemma_conclude(s, Outcome::Failed(Failure::LaunchError));
            },
            Event::Launched(Some(pid)) => {},
            Event::Settled => {},
            Event::Enumerated(windows) => {
                if first_match(windows, s.phase->Locating_pid) is None {
                    lemma_conclude(s, Outcome::Failed(Failure::WindowNotFound));
                }
            },
            Event::Relocated(Ok(_)) => {
                lemma_conclude(s, Outcome::Succeeded);
            },
            Event::Relocated(Err(reason)) => {
                lemma_conclude(s, Outcome::Failed(Failure::RelocationError(reason)));
            },
        }
    }
}

/// An event that answers the action asked for brings the replay nearer to
/// its end: a replay of N records is done after at most 4 N such events.
pub proof fn lemma_step_makes_progress(s: Replay, event: Event)
    requires
        s.wf(),
        s.expects(event),
    ensures
        s.step(event).remaining() < s.remaining(),
        s.remaining() <= 4 * s.records.len(),
{
    lemma_step_keeps_wf(s, event);
}

/// Whatever events come, in whatever order, the state stays in order, the
/// records stay the same and the outcomes given so far stay as they are.
pub proof fn lemma_run_keeps_wf(s: Replay, events: Seq<Event>)
    requires
        s.wf(),
    ensures
        s.run(events).wf(),
        s.run(events).records == s.records,
        s.run(events).aborted == s.aborted,
        s.run(events).outcomes.len() >= s.outcomes.len(),
        s.run(events).outcomes.take(s.outcomes.len() as int) == s.outcomes,
    decreases events.len(),
{
    if events.len() > 0 {
        lemma_run_keeps_wf(s, events.drop_last());
        lemma_step_keeps_wf(s.run(events.drop_last()), events.last());
    }
}

/// A replay that ran to its end under a session gave every record exactly
/// one outcome, in the order of the records. A record that names no
/// executable has the outcome `Skipped::NoPath`; every other record was taken
/// up and has `Succeeded` or a failure, wherever it stands among the skipped.
pub proof fn lemma_finished_replay_has_all_outcomes(s: Replay)
    requires
        s.wf(),
        s.done(),
        !s.aborted,
    ensures
        s.outcomes.len() == s.records.len(),
        forall|k: int|
            0 <= k < s.records.len() && (#[trigger] s.records[k]).executable_path.len() == 0
                ==> s.outcomes[k] == Outcome::Skipped(Skipped::NoPath),
        forall|k: int|
            0 <= k < s.records.len() && (#[trigger] s.records[k]).executable_path.len() > 0
                ==> s.outcomes[k] is Succeeded || s.outcomes[k] is Failed,
{
}

/// Replaying a snapshot of N records under a session, with whatever the
/// launches, walks and moves give: once the engine asks for nothing more,
/// there are exactly N outcomes, and a record `k` that names no executable
/// has `Skipped::NoPath` at place `k`, while the records after it got their
/// own outcomes all the same.
pub proof fn lemma_replay_skips_what_has_no_path(
    records: Seq<WindowRecord>,
    events: Seq<Event>,
    k: int,
)
    requires
        0 <= k < records.len(),
        records[k].executable_path.len() == 0,
        Replay::begin(true, records).run(events).action() is Finish,
    ensures
        Replay::begin(true, records).run(events).outcomes.len() == records.len(),
        Replay::begin(true, records).run(events).outcomes[k] == Outcome::Skipped(Skipped::NoPath),
        forall|j: int|
            k < j < records.len() && (#[trigger] records[j]).executable_path.len() > 0 ==> {
                let o = Replay::begin(true, records).run(events).outcomes[j];
                o is Succeeded || o is Failed
            },
{
    let start = Replay::begin(true, records);
    lemma_begin_is_wf(true, records);
    lemma_run_keeps_wf(start, events);
    lemma_finished_replay_has_all_outcomes(start.run(events));
}

/// No record that names an executable is passed by: in a replay under a
/// session that has got as far as the record at place `j`, there was a
/// moment at which the launch of that record's executable was what the
/// engine asked for, with every earlier record done and no later one begun.
/// So the records are taken up in the snapshot's order, and a record that is
/// skipped or fails keeps none of the later ones from being attempted.
pub proof fn lemma_every_record_with_a_path_is_launched(
    records: Seq<WindowRecord>,
    events: Seq<Event>,
    j: int,
)
    requires
        0 <= j < records.len(),
        records[j].executable_path.len() > 0,
        Replay::begin(true, records).run(events).outcomes.len() >= j,
    ensures
        exists|n: int| Replay::launch_asked_at(records, events, n, j),
    decreases events.len(),
{
    let start = Replay::begin(true, records);
    lemma_begin_is_wf(true, records);
    if events.len() == 0 {
        lemma_skip_pathless(records, Seq::empty());
        assert(events.take(0) =~= events);
        assert(Replay::launch_asked_at(records, events, 0, j));
    } else {
        let earlier = events.drop_last();
        let before = start.run(earlier);
        lemma_run_keeps_wf(start, earlier);
        lemma_step_keeps_wf(before, events.last());
        if before.outcomes.len() >= j {
            lemma_every_record_with_a_path_is_launched(records, earlier, j);
            let n = choose|n: int| Replay::launch_asked_at(records, earlier, n, j);
            assert(events.take(n) =~= earlier.take(n));
            assert(Replay::launch_asked_at(records, events, n, j));
        } else {
            let n = events.len() as int;
            assert(events.take(n) =~= events);
            assert(before.took_next_record(start.run(events)));
            assert(Replay::launch_asked_at(records, events, n, j));
        }
    }
}

/// Matching after the settle delay: if exactly one open window belongs to
/// the launched process, that window is the one to be moved, and no outcome
/// is given yet.
pub proof fn lemma_only_window_of_process_is_selected(
    s: Replay,
    pid: u32,
    windows: Seq<LiveWindow>,
    k: int,
)
    requires
        s.wf(),
        !s.done(),
        s.phase == (Phase::Locating { pid }),
        0 <= k < windows.len(),
        windows[k].record.process_id == pid,
        forall|j: int|
            0 <= j < windows.len() && j != k ==> (#[trigger] windows[j]).record.process_id != pid,
    ensures
        first_match(windows, pid) == Some(k),
        s.step(Event::Enumerated(windows)).phase == (Phase::Relocating { hwnd: windows[k].hwnd }),
        s.step(Event::Enumerated(windows)).outcomes == s.outcomes,
        s.step(Event::Enumerated(windows)).action() == (Action::Relocate {
            hwnd: windows[k].hwnd,
            desktop_index: s.records[s.outcomes.len() as int].virtual_desktop_index,
        }),
{
    assert(is_first_match(windows, pid, k));
    let c = choose|c: int| is_first_match(windows, pid, c);
    lemma_first_match_is_unique(windows, pid, k, c);
}

/// Matching after the settle delay: if no open window belongs to the
/// launched process, the record fails with `WindowNotFound`, and the replay
/// goes on with the next record.
pub proof fn lemma_no_window_of_process_fails(s: Replay, pid: u32, windows: Seq<LiveWindow>)
    requires
        s.wf(),
        !s.done(),
        s.phase == (Phase::Locating { pid }),
        forall|j: int| 0 <= j < windows.len() ==> (#[trigger] windows[j]).record.process_id != pid,
    ensures
        first_match(windows, pid) is None,
        s.step(Event::Enumerated(windows)) == s.conclude(Outcome::Failed(Failure::WindowNotFound)),
        s.step(Event::Enumerated(windows)).outcomes[s.outcomes.len() as int] == Outcome::Failed(
            Failure::WindowNotFound,
        ),
        s.step(Event::Enumerated(windows)).phase == Phase::Launching,
{
    lemma_conclude(s, Outcome::Failed(Failure::WindowNotFound));
}

/// Without a session nothing is replayed: whatever events come, the engine
/// asks for nothing but to finish, and no record ever gets an outcome.
pub proof fn lemma_no_session_no_replay(records: Seq<WindowRecord>, events: Seq<Event>)
    ensures
        Replay::begin(false, records).run(events) == Replay::begin(false, records),
        Replay::begin(false, records).run(events).aborted,
        Replay::begin(false, records).run(events).outcomes.len() == 0,
        Replay::begin(false, records).run(events).action() is Finish,
    decreases events.len(),
{
    if events.len() > 0 {
        lemma_no_session_no_replay(records, events.drop_last());
    }
}

} // verus!
