use image_watcher::{Timestamp, WatchState};

fn at(secs: i64, nanos: u32) -> Timestamp {
    Timestamp { secs, nanos }
}

#[test]
fn fresh_state_always_processes() {
    assert!(WatchState::new().should_process(at(0, 0)));
    assert!(WatchState::new().should_process(at(1_700_000_000, 5)));
    assert!(WatchState::new().should_process(at(-20, 0)));
}

#[test]
fn same_time_after_record_is_quiet() {
    let mut s = WatchState::new();
    s.record_processed(at(100, 7));
    assert!(!s.should_process(at(100, 7)));
    assert!(!s.should_process(at(100, 7)));
}

#[test]
fn any_other_time_after_record_processes() {
    let mut s = WatchState::new();
    s.record_processed(at(100, 7));
    assert!(s.should_process(at(101, 7)));
    assert!(s.should_process(at(100, 8)));
    assert!(s.should_process(at(50, 0)));
}
