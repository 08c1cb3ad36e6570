use bgjobs::debounce::{count_signals, DebounceWindow};

#[test]
fn burst_coalesces_to_one_signal() {
    // many raw events within less than the window of one another
    let events: Vec<u64> = vec![0, 1, 2, 3, 4, 5];
    assert_eq!(count_signals(&events, 10), 1);
}

#[test]
fn separated_events_each_signal() {
    // each raw event follows the last by more than the window
    let events: Vec<u64> = vec![0, 20, 40];
    assert_eq!(count_signals(&events, 10), 3);
}

#[test]
fn mixed_trace() {
    // two bursts and one straggler: three batches in all
    let events: Vec<u64> = vec![0, 1, 30, 31, 32, 90];
    assert_eq!(count_signals(&events, 10), 3);
}

#[test]
fn no_events_no_signal() {
    let events: Vec<u64> = vec![];
    assert_eq!(count_signals(&events, 10), 0);
}

#[test]
fn window_state_machine() {
    let mut d = DebounceWindow::new(5);
    // nothing pending: polling emits nothing
    assert!(!d.poll(0));
    d.on_event(3);
    // the window has not elapsed yet
    assert!(!d.poll(7));
    // trailing edge: quiet for the whole window
    assert!(d.poll(8));
    // the batch was consumed
    assert!(!d.poll(9));
    // a fresh event reopens the batch and flush closes it
    d.on_event(10);
    assert!(d.flush());
    assert!(!d.flush());
}

#[test]
fn gap_of_exactly_one_window_signals() {
    // the trailing edge closes once the full window has elapsed, so a gap
    // of exactly the window separates two batches
    let events: Vec<u64> = vec![0, 10];
    assert_eq!(count_signals(&events, 10), 2);
}
