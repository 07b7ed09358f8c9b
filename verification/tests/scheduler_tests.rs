use miaogu_notepad::error::{ErrorKind, UpdateError};
use miaogu_notepad::release::VersionInfo;
use miaogu_notepad::scheduler::{
    announcement, lock_failure, SchedulerState, StartOutcome, TickOutcome, CHECK_INTERVAL_SECS,
    UPDATE_AVAILABLE_EVENT, UPDATE_PROGRESS_EVENT,
};

fn info(has_update: bool) -> VersionInfo {
    VersionInfo {
        current_version: "1.3.1".to_string(),
        latest_version: "1.4.0".to_string(),
        has_update,
        download_url: None,
        release_notes: None,
        published_at: None,
    }
}

#[test]
fn scheduler_constants() {
    assert_eq!(CHECK_INTERVAL_SECS, 3600);
    assert_eq!(UPDATE_AVAILABLE_EVENT, "update-available");
    assert_eq!(UPDATE_PROGRESS_EVENT, "update-progress");
}

#[test]
fn scheduler_starts_stopped() {
    let s = SchedulerState::new();
    assert!(!s.is_running());
    assert!(!s.active);
    assert!(!s.loop_alive);
}

#[test]
fn second_start_spawns_no_second_loop() {
    let mut s = SchedulerState::new();
    let mut loops = 0;
    let first = s.start();
    if first == StartOutcome::Spawn {
        loops += 1;
    }
    assert_eq!(first, StartOutcome::Spawn);
    assert_eq!(first.message(), "Update checker started");
    let after_first = s;
    let second = s.start();
    if second == StartOutcome::Spawn {
        loops += 1;
    }
    assert_eq!(second, StartOutcome::AlreadyRunning);
    assert_eq!(second.message(), "Update checker is already running");
    assert_eq!(s, after_first);
    assert_eq!(loops, 1);
    assert!(s.is_running());
}

#[test]
fn second_start_after_ticks_spawns_no_second_loop() {
    let mut s = SchedulerState::new();
    assert_eq!(s.start(), StartOutcome::Spawn);
    assert_eq!(s.tick(), TickOutcome::Check);
    assert_eq!(s.tick(), TickOutcome::Check);
    assert_eq!(s.start(), StartOutcome::AlreadyRunning);
    assert_eq!(s.tick(), TickOutcome::Check);
}

#[test]
fn tick_after_stop_ends_the_loop() {
    let mut s = SchedulerState::new();
    s.start();
    assert_eq!(s.tick(), TickOutcome::Check);
    assert_eq!(s.stop(), "Update checker stopped");
    assert!(!s.is_running());
    assert!(s.loop_alive);
    assert_eq!(s.tick(), TickOutcome::Terminate);
    assert!(!s.loop_alive);
    assert_eq!(s, SchedulerState::new());
}

#[test]
fn start_before_the_loop_ended_resumes_it() {
    let mut s = SchedulerState::new();
    assert_eq!(s.start(), StartOutcome::Spawn);
    s.stop();
    let again = s.start();
    assert_eq!(again, StartOutcome::Resumed);
    assert_eq!(again.message(), "Update checker started");
    assert!(s.is_running());
    assert_eq!(s.tick(), TickOutcome::Check);
}

#[test]
fn start_after_the_loop_ended_spawns_anew() {
    let mut s = SchedulerState::new();
    s.start();
    s.stop();
    assert_eq!(s.tick(), TickOutcome::Terminate);
    assert_eq!(s.start(), StartOutcome::Spawn);
}

#[test]
fn stop_when_stopped_changes_nothing() {
    let mut s = SchedulerState::new();
    assert_eq!(s.stop(), "Update checker stopped");
    assert_eq!(s, SchedulerState::new());
}

#[test]
fn never_more_than_one_loop() {
    // all sequences of six operations: 0 start, 1 stop, 2 tick of the loop
    for code in 0..729u32 {
        let mut s = SchedulerState::new();
        let mut loops: i32 = 0;
        let mut c = code;
        for _ in 0..6 {
            match c % 3 {
                0 => {
                    if s.start() == StartOutcome::Spawn {
                        loops += 1;
                    }
                }
                1 => {
                    s.stop();
                }
                _ => {
                    if loops > 0 && s.tick() == TickOutcome::Terminate {
                        loops -= 1;
                    }
                }
            }
            c /= 3;
            assert!(loops == 0 || loops == 1);
            assert_eq!(loops == 1, s.loop_alive);
            if s.is_running() {
                assert_eq!(loops, 1);
            }
        }
    }
}

#[test]
fn only_an_update_is_announced() {
    assert_eq!(announcement(Ok(info(true))), Some(info(true)));
    assert_eq!(announcement(Ok(info(false))), None);
    let e = UpdateError { kind: ErrorKind::Network, message: "down".to_string() };
    assert_eq!(announcement(Err(e)), None);
}

#[test]
fn lock_failure_is_a_state_error() {
    let e = lock_failure("poisoned lock");
    assert_eq!(e.kind, ErrorKind::State);
    assert_eq!(e.message, "Failed to lock update checker state: poisoned lock");
}
