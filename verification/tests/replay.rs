use vdesk::commands::WindowInfoSharable;
use vdesk::replay::{
    select_window, Failed, PerWindowOutcome, ReplayAction, ReplayEngine, ReplayEvent, Skipped,
    SETTLE_DELAY_MS,
};
use vdesk::window_handler::{create_virtual_desktop_manager, SessionError, WindowInfo};

fn record(title: &str, path: &str, index: u32) -> WindowInfoSharable {
    WindowInfoSharable {
        title: title.to_string(),
        path: path.to_string(),
        process_id: 1,
        class_name: "Class".to_string(),
        desktop_index: index,
    }
}

fn window(hwnd: isize, pid: u32) -> WindowInfo {
    WindowInfo {
        hwnd,
        title: "Some window".to_string(),
        class_name: "Class".to_string(),
        process_id: pid,
        desktop_id: 0,
        path: "C:\\some.exe".to_string(),
        desktop_index: 0,
    }
}

fn started(records: Vec<WindowInfoSharable>) -> ReplayEngine {
    ReplayEngine::start(&create_virtual_desktop_manager(true, true), records)
}

/// Plays one record through: launch gives `pid`, the walk gives `windows`,
/// the move gives `moved`.
fn play(
    engine: ReplayEngine,
    pid: Option<u32>,
    windows: Vec<WindowInfo>,
    moved: Result<(), String>,
) -> ReplayEngine {
    let engine = engine.step(ReplayEvent::Launched(pid));
    let engine = engine.step(ReplayEvent::Settled);
    let engine = engine.step(ReplayEvent::Enumerated(windows));
    engine.step(ReplayEvent::Relocated(moved))
}

#[test]
fn settle_delay_is_five_seconds() {
    assert_eq!(SETTLE_DELAY_MS, 5000);
}

#[test]
fn select_window_takes_the_first_of_the_process() {
    let windows = vec![window(1, 10), window(2, 20), window(3, 20), window(4, 30)];
    assert_eq!(select_window(&windows, 20), Some(1));
    assert_eq!(select_window(&windows, 10), Some(0));
    assert_eq!(select_window(&windows, 30), Some(3));
    assert_eq!(select_window(&windows, 40), None);
    assert_eq!(select_window(&Vec::new(), 10), None);
}

#[test]
fn one_record_goes_through_all_phases() {
    let engine = started(vec![record("Notepad", "C:\\apps\\notepad.exe", 3)]);
    assert!(!engine.is_done());
    assert_eq!(
        engine.next_action(),
        ReplayAction::Launch { path: "C:\\apps\\notepad.exe".to_string() }
    );
    let engine = engine.step(ReplayEvent::Launched(Some(500)));
    assert_eq!(engine.next_action(), ReplayAction::Wait { millis: 5000 });
    let engine = engine.step(ReplayEvent::Settled);
    assert_eq!(engine.next_action(), ReplayAction::Enumerate);
    let engine = engine.step(ReplayEvent::Enumerated(vec![window(70, 400), window(71, 500)]));
    assert_eq!(engine.next_action(), ReplayAction::Relocate { hwnd: 71, desktop_index: 3 });
    assert!(engine.outcomes().is_empty());
    let engine = engine.step(ReplayEvent::Relocated(Ok(())));
    assert!(engine.is_done());
    assert_eq!(engine.next_action(), ReplayAction::Finish);
    assert_eq!(engine.finish(), Ok(vec![PerWindowOutcome::Succeeded]));
}

#[test]
fn refused_launch_fails_the_record_and_goes_on() {
    let engine = started(vec![record("A", "C:\\a.exe", 0), record("B", "C:\\b.exe", 1)]);
    let engine = engine.step(ReplayEvent::Launched(None));
    assert_eq!(engine.outcomes(), &vec![PerWindowOutcome::Failed(Failed::LaunchError)]);
    assert_eq!(engine.next_action(), ReplayAction::Launch { path: "C:\\b.exe".to_string() });
}

#[test]
fn missing_window_fails_the_record_and_goes_on() {
    let engine = started(vec![record("A", "C:\\a.exe", 0), record("B", "C:\\b.exe", 1)]);
    let engine = engine.step(ReplayEvent::Launched(Some(500)));
    let engine = engine.step(ReplayEvent::Settled);
    let engine = engine.step(ReplayEvent::Enumerated(vec![window(70, 400), window(71, 501)]));
    assert_eq!(engine.outcomes(), &vec![PerWindowOutcome::Failed(Failed::WindowNotFound)]);
    assert_eq!(engine.next_action(), ReplayAction::Launch { path: "C:\\b.exe".to_string() });
}

#[test]
fn failed_move_keeps_its_reason_and_goes_on() {
    let engine = started(vec![record("A", "C:\\a.exe", 0), record("B", "C:\\b.exe", 1)]);
    let engine = play(
        engine,
        Some(500),
        vec![window(71, 500)],
        Err("DesktopNotFound".to_string()),
    );
    assert_eq!(
        engine.outcomes(),
        &vec![PerWindowOutcome::Failed(Failed::RelocationError("DesktopNotFound".to_string()))]
    );
    assert_eq!(engine.next_action(), ReplayAction::Launch { path: "C:\\b.exe".to_string() });
}

#[test]
fn only_window_of_the_process_is_moved() {
    let engine = started(vec![record("A", "C:\\a.exe", 6)]);
    let engine = engine.step(ReplayEvent::Launched(Some(9)));
    let engine = engine.step(ReplayEvent::Settled);
    let engine = engine.step(ReplayEvent::Enumerated(vec![
        window(1, 7),
        window(2, 8),
        window(3, 9),
        window(4, 10),
    ]));
    assert_eq!(engine.next_action(), ReplayAction::Relocate { hwnd: 3, desktop_index: 6 });
}

#[test]
fn first_of_several_windows_of_the_process_is_moved() {
    let engine = started(vec![record("A", "C:\\a.exe", 6)]);
    let engine = engine.step(ReplayEvent::Launched(Some(9)));
    let engine = engine.step(ReplayEvent::Settled);
    let engine =
        engine.step(ReplayEvent::Enumerated(vec![window(1, 7), window(2, 9), window(3, 9)]));
    assert_eq!(engine.next_action(), ReplayAction::Relocate { hwnd: 2, desktop_index: 6 });
}

#[test]
fn record_without_path_is_skipped_and_the_rest_is_attempted() {
    let engine = started(vec![
        record("A", "C:\\a.exe", 0),
        record("B", "", 1),
        record("C", "", 1),
        record("D", "C:\\d.exe", 2),
        record("E", "", 0),
    ]);
    assert_eq!(engine.next_action(), ReplayAction::Launch { path: "C:\\a.exe".to_string() });
    let engine = play(engine, Some(5), vec![window(50, 5)], Ok(()));
    assert_eq!(
        engine.outcomes(),
        &vec![
            PerWindowOutcome::Succeeded,
            PerWindowOutcome::Skipped(Skipped::NoPath),
            PerWindowOutcome::Skipped(Skipped::NoPath),
        ]
    );
    assert_eq!(engine.next_action(), ReplayAction::Launch { path: "C:\\d.exe".to_string() });
    let engine = engine.step(ReplayEvent::Launched(None));
    assert!(engine.is_done());
    assert_eq!(
        engine.finish(),
        Ok(vec![
            PerWindowOutcome::Succeeded,
            PerWindowOutcome::Skipped(Skipped::NoPath),
            PerWindowOutcome::Skipped(Skipped::NoPath),
            PerWindowOutcome::Failed(Failed::LaunchError),
            PerWindowOutcome::Skipped(Skipped::NoPath),
        ])
    );
}

#[test]
fn leading_records_without_path_are_skipped_at_the_start() {
    let engine = started(vec![record("A", "", 0), record("B", "C:\\b.exe", 1)]);
    assert_eq!(engine.outcomes(), &vec![PerWindowOutcome::Skipped(Skipped::NoPath)]);
    assert_eq!(engine.next_action(), ReplayAction::Launch { path: "C:\\b.exe".to_string() });
}

#[test]
fn snapshot_of_pathless_records_is_done_at_once() {
    let engine = started(vec![record("A", "", 0), record("B", "", 1)]);
    assert!(engine.is_done());
    assert_eq!(engine.next_action(), ReplayAction::Finish);
    assert_eq!(
        engine.finish(),
        Ok(vec![
            PerWindowOutcome::Skipped(Skipped::NoPath),
            PerWindowOutcome::Skipped(Skipped::NoPath),
        ])
    );
}

#[test]
fn empty_snapshot_is_done_at_once() {
    let engine = started(Vec::new());
    assert!(engine.is_done());
    assert_eq!(engine.finish(), Ok(Vec::new()));
}

#[test]
fn notepad_then_pathless_record() {
    let snapshot = vec![record("A", "C:\\apps\\notepad.exe", 1), record("B", "", 0)];

    let moved = play(started(snapshot.clone()), Some(77), vec![window(700, 77)], Ok(()));
    assert_eq!(
        moved.finish(),
        Ok(vec![PerWindowOutcome::Succeeded, PerWindowOutcome::Skipped(Skipped::NoPath)])
    );

    let stuck = play(
        started(snapshot.clone()),
        Some(77),
        vec![window(700, 77)],
        Err("WindowNotFound".to_string()),
    );
    assert_eq!(
        stuck.finish(),
        Ok(vec![
            PerWindowOutcome::Failed(Failed::RelocationError("WindowNotFound".to_string())),
            PerWindowOutcome::Skipped(Skipped::NoPath),
        ])
    );

    let engine = started(snapshot);
    assert_eq!(
        engine.next_action(),
        ReplayAction::Launch { path: "C:\\apps\\notepad.exe".to_string() }
    );
    let engine = engine.step(ReplayEvent::Launched(Some(77)));
    let engine = engine.step(ReplayEvent::Settled);
    let engine = engine.step(ReplayEvent::Enumerated(vec![window(700, 78)]));
    assert!(engine.is_done());
    assert_eq!(
        engine.finish(),
        Ok(vec![
            PerWindowOutcome::Failed(Failed::WindowNotFound),
            PerWindowOutcome::Skipped(Skipped::NoPath),
        ])
    );
}

#[test]
fn event_that_was_not_asked_for_changes_nothing() {
    let engine = started(vec![record("A", "C:\\a.exe", 0)]);
    let engine = engine.step(ReplayEvent::Settled);
    let engine = engine.step(ReplayEvent::Enumerated(vec![window(1, 1)]));
    let engine = engine.step(ReplayEvent::Relocated(Ok(())));
    assert_eq!(engine.next_action(), ReplayAction::Launch { path: "C:\\a.exe".to_string() });
    assert!(engine.outcomes().is_empty());
    let engine = engine.step(ReplayEvent::Launched(Some(3)));
    let engine = engine.step(ReplayEvent::Launched(Some(4)));
    let engine = engine.step(ReplayEvent::Relocated(Ok(())));
    assert_eq!(engine.next_action(), ReplayAction::Wait { millis: 5000 });
    let engine = engine.step(ReplayEvent::Settled);
    let engine = engine.step(ReplayEvent::Settled);
    let engine = engine.step(ReplayEvent::Enumerated(vec![window(8, 4), window(9, 3)]));
    assert_eq!(engine.next_action(), ReplayAction::Relocate { hwnd: 9, desktop_index: 0 });
}

#[test]
fn outcomes_are_final_once_done() {
    let engine = started(vec![record("A", "C:\\a.exe", 0)]);
    let engine = play(engine, Some(3), vec![window(9, 3)], Ok(()));
    let engine = play(engine, None, Vec::new(), Err("late".to_string()));
    assert_eq!(engine.records().len(), 1);
    assert_eq!(engine.finish(), Ok(vec![PerWindowOutcome::Succeeded]));
}

#[test]
fn without_session_nothing_is_replayed() {
    let session = create_virtual_desktop_manager(true, false);
    let snapshot = vec![record("A", "C:\\a.exe", 0), record("B", "", 0)];
    let engine = ReplayEngine::start(&session, snapshot);
    assert!(engine.is_done());
    assert_eq!(engine.next_action(), ReplayAction::Finish);
    assert!(engine.outcomes().is_empty());
    let engine = play(engine, Some(3), vec![window(9, 3)], Ok(()));
    assert_eq!(engine.next_action(), ReplayAction::Finish);
    assert!(engine.outcomes().is_empty());
    assert_eq!(engine.finish(), Err(SessionError::SubsystemUnavailable));
}

#[test]
fn replay_of_n_records_gives_n_outcomes() {
    let mut snapshot = Vec::new();
    for i in 0..10u32 {
        let path = if i % 3 == 1 { String::new() } else { format!("C:\\app{}.exe", i) };
        snapshot.push(record("W", &path, i));
    }
    let mut engine = started(snapshot);
    let mut launches = 0u32;
    let mut events = 0u32;
    while !engine.is_done() {
        let event = match engine.next_action() {
            ReplayAction::Launch { .. } => {
                launches += 1;
                ReplayEvent::Launched(Some(launches))
            }
            ReplayAction::Wait { .. } => ReplayEvent::Settled,
            ReplayAction::Enumerate => ReplayEvent::Enumerated(vec![window(100, launches)]),
            ReplayAction::Relocate { .. } => ReplayEvent::Relocated(Ok(())),
            ReplayAction::Finish => unreachable!(),
        };
        engine = engine.step(event);
        events += 1;
        assert!(events <= 40);
    }
    assert_eq!(launches, 7);
    assert_eq!(events, 28);
    let outcomes = engine.finish().unwrap();
    assert_eq!(outcomes.len(), 10);
    for (i, outcome) in outcomes.iter().enumerate() {
        if i % 3 == 1 {
            assert_eq!(outcome, &PerWindowOutcome::Skipped(Skipped::NoPath));
        } else {
            assert_eq!(outcome, &PerWindowOutcome::Succeeded);
        }
    }
}
