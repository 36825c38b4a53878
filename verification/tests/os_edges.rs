use hang_watchdog::enumerate::enum_buffer_step;
use hang_watchdog::enumerate::EnumStep;
use hang_watchdog::enumerate::MAX_ENUM_CAPACITY;
use hang_watchdog::lookup::classify_window_search;
use hang_watchdog::lookup::find_first_owned;
use hang_watchdog::lookup::saw_window;
use hang_watchdog::lookup::window_visit_decision;
use hang_watchdog::lookup::OsError;
use hang_watchdog::lookup::WindowInfo;
use hang_watchdog::tracking::choose_first;
use hang_watchdog::tracking::plan_cycle;
use hang_watchdog::tracking::select_matching;
use hang_watchdog::tracking::TerminateOrder;
use hang_watchdog::tracking::TrackedProcess;
use hang_watchdog::tracking::DEFAULT_EXIT_CODE;
use hang_watchdog::state::Action;
use hang_watchdog::state::LivenessState;

#[test]
fn early_stop_is_not_an_error() {
    // The primitive returned zero and the error channel still holds a code,
    // but the visitor stopped at a window: a success, not an error.
    let r = classify_window_search(false, Some(0x1234), 5);
    assert_eq!(r, Ok(Some(0x1234)));
}

#[test]
fn clean_zero_return_is_no_window() {
    let r = classify_window_search(false, None, 0);
    assert_eq!(r, Ok(None));
}

#[test]
fn completed_walk_without_match_is_no_window() {
    let r = classify_window_search(true, None, 0);
    assert_eq!(r, Ok(None));
}

#[test]
fn genuine_failure_keeps_its_code() {
    let r = classify_window_search(false, None, 6);
    assert_eq!(r, Err(OsError { code: 6 }));
}

#[test]
fn sighting_only_on_a_found_window() {
    assert!(saw_window(&Ok(Some(7))));
    assert!(!saw_window(&Ok(None)));
    assert!(!saw_window(&Err(OsError { code: 6 })));
}

#[test]
fn visit_stops_exactly_on_the_target() {
    assert!(window_visit_decision(41, 41));
    assert!(!window_visit_decision(41, 42));
}

#[test]
fn first_owned_window_in_walk_order() {
    let windows = vec![
        WindowInfo { handle: 10, owner_pid: 1 },
        WindowInfo { handle: 20, owner_pid: 2 },
        WindowInfo { handle: 30, owner_pid: 2 },
    ];
    assert_eq!(find_first_owned(&windows, 2), Some(20));
    assert_eq!(find_first_owned(&windows, 1), Some(10));
    assert_eq!(find_first_owned(&windows, 3), None);
    assert_eq!(find_first_owned(&Vec::new(), 1), None);
}

#[test]
fn full_buffer_grows_and_retries() {
    let step = enum_buffer_step(1024, 4096);
    assert_eq!(step, EnumStep::Grow { new_capacity: 2048 });
}

#[test]
fn partial_buffer_is_accepted() {
    let step = enum_buffer_step(1024, 400);
    assert_eq!(step, EnumStep::Done { count: 100 });
}

#[test]
fn growth_stops_at_the_cap() {
    let step = enum_buffer_step(MAX_ENUM_CAPACITY, MAX_ENUM_CAPACITY * 4);
    assert_eq!(step, EnumStep::Done { count: MAX_ENUM_CAPACITY });
    let step = enum_buffer_step(MAX_ENUM_CAPACITY / 2 + 1, (MAX_ENUM_CAPACITY / 2 + 1) * 4);
    assert_eq!(step, EnumStep::Grow { new_capacity: MAX_ENUM_CAPACITY });
}

#[test]
fn release_happens_exactly_once() {
    let mut t = TrackedProcess::track(7, String::from("gta5.exe"), 0x40);
    assert!(t.is_open());
    let mut closes = 0;
    if let Some(h) = t.release() {
        assert_eq!(h, 0x40);
        closes += 1;
    }
    if let Some(_h) = t.release() {
        closes += 1;
    }
    assert_eq!(closes, 1);
    assert!(!t.is_open());
}

#[test]
fn selection_partitions_the_scan() {
    let procs = vec![
        TrackedProcess::track(1, String::from("GTA5.exe"), 0x10),
        TrackedProcess::track(2, String::from("notepad.exe"), 0x20),
        TrackedProcess::track(3, String::from("gta5.exe"), 0x30),
    ];
    let sel = select_matching(procs, "gta5");
    assert_eq!(sel.kept.len(), 2);
    assert_eq!(sel.kept[0].pid, 1);
    assert_eq!(sel.kept[1].pid, 3);
    assert_eq!(sel.dropped_handles, vec![0x20]);
}

#[test]
fn selection_of_nothing_drops_everything() {
    let procs = vec![
        TrackedProcess::track(1, String::from("a.exe"), 0x10),
        TrackedProcess::track(2, String::from("b.exe"), 0x20),
    ];
    let sel = select_matching(procs, "gta5");
    assert_eq!(sel.kept.len(), 0);
    assert_eq!(sel.dropped_handles, vec![0x10, 0x20]);
}

#[test]
fn first_match_wins_and_the_rest_are_released() {
    let kept = vec![
        TrackedProcess::track(1, String::from("gta5.exe"), 0x10),
        TrackedProcess::track(2, String::from("gta5.exe"), 0x20),
        TrackedProcess::track(3, String::from("gta5.exe"), 0x30),
    ];
    let (first, rest) = choose_first(kept);
    let first = first.expect("a first match");
    assert_eq!(first.pid, 1);
    assert_eq!(rest, vec![0x20, 0x30]);

    let (none, rest) = choose_first(Vec::new());
    assert!(none.is_none());
    assert!(rest.is_empty());
}

#[test]
fn a_terminating_plan_orders_and_releases() {
    let t = TrackedProcess::track(9, String::from("gta5.exe"), 0x50);
    let plan = plan_cycle(LivenessState::Suspect, t, false, false);
    assert_eq!(plan.verdict.next_state, LivenessState::Closed);
    assert_eq!(plan.verdict.decision, Action::Terminate);
    assert!(plan.verdict.execute_terminate);
    assert_eq!(
        plan.terminate,
        Some(TerminateOrder { pid: 9, handle: 0x50, exit_code: DEFAULT_EXIT_CODE })
    );
    assert_eq!(plan.release, 0x50);
}

#[test]
fn a_dry_run_plan_reports_but_orders_nothing() {
    let t = TrackedProcess::track(9, String::from("gta5.exe"), 0x50);
    let plan = plan_cycle(LivenessState::Suspect, t, false, true);
    assert_eq!(plan.verdict.decision, Action::Terminate);
    assert!(!plan.verdict.execute_terminate);
    assert_eq!(plan.terminate, None);
    // The handle is still surrendered for release.
    assert_eq!(plan.release, 0x50);
}

#[test]
fn a_quiet_plan_still_releases() {
    let t = TrackedProcess::track(9, String::from("gta5.exe"), 0x50);
    let plan = plan_cycle(LivenessState::Running, t, true, false);
    assert_eq!(plan.verdict.next_state, LivenessState::Running);
    assert_eq!(plan.verdict.decision, Action::Wait);
    assert_eq!(plan.terminate, None);
    assert_eq!(plan.release, 0x50);
}

#[test]
fn default_exit_code_is_one() {
    assert_eq!(DEFAULT_EXIT_CODE, 1);
}
