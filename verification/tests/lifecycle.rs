use media_ingest::watch::{start_watching, stop_watching, StartAction, WatchError, WatcherState};

#[test]
fn second_start_subscribes_nothing() {
    let mut st = WatcherState::Idle;
    let first = start_watching(&mut st, "/media/inbox", "http://server");
    assert_eq!(first, Ok(StartAction::Subscribe));
    assert_eq!(st, WatcherState::Running);
    let second = start_watching(&mut st, "/media/inbox", "http://server");
    assert_eq!(second, Ok(StartAction::AlreadyRunning));
    assert_eq!(st, WatcherState::Running);
}

#[test]
fn stop_when_idle_is_a_noop() {
    let mut st = WatcherState::Idle;
    assert!(!stop_watching(&mut st));
    assert_eq!(st, WatcherState::Idle);
}

#[test]
fn stop_after_start_demands_a_join() {
    let mut st = WatcherState::Idle;
    start_watching(&mut st, "f", "s").expect("start");
    assert!(stop_watching(&mut st));
    assert_eq!(st, WatcherState::Idle);
    assert!(!stop_watching(&mut st));
}

#[test]
fn incomplete_config_is_rejected() {
    let mut st = WatcherState::Idle;
    assert_eq!(
        start_watching(&mut st, "", "http://server"),
        Err(WatchError::ConfigIncomplete)
    );
    assert_eq!(
        start_watching(&mut st, "/media/inbox", ""),
        Err(WatchError::ConfigIncomplete)
    );
    assert_eq!(st, WatcherState::Idle);
}

#[test]
fn restart_after_stop_subscribes_again() {
    let mut st = WatcherState::Idle;
    start_watching(&mut st, "f", "s").expect("start");
    stop_watching(&mut st);
    assert_eq!(
        start_watching(&mut st, "f", "s"),
        Ok(StartAction::Subscribe)
    );
}
