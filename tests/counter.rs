use rust_intro::counter::{
    increment_and_maybe_notify, receive_outcome, serialized_run, worker_turn, Notice, RunReport,
    SyncError,
};
use std::sync::mpsc::channel;
use std::sync::Mutex;

#[test]
fn a_test() {
    assert!(true);
}

#[test]
fn increment_reaches_target_once() {
    let mut count: u64 = 0;
    let mut sends: u64 = 0;
    for _ in 0..10 {
        if increment_and_maybe_notify(&mut count, 10) {
            sends += 1;
        }
    }
    assert_eq!(count, 10);
    assert_eq!(sends, 1);
}

#[test]
fn increment_before_target_is_quiet() {
    let mut count: u64 = 3;
    assert!(!increment_and_maybe_notify(&mut count, 10));
    assert_eq!(count, 4);
    let mut count: u64 = 9;
    assert!(increment_and_maybe_notify(&mut count, 10));
    assert_eq!(count, 10);
}

#[test]
fn run_counts_every_worker() {
    for n in [1u64, 2, 10, 100, 1000] {
        let r = serialized_run(n);
        assert_eq!(r, RunReport { final_count: n, sends: 1 });
    }
}

#[test]
fn run_repeated_trials() {
    for n in 1u64..=100 {
        for _ in 0..3 {
            let r = serialized_run(n);
            assert_eq!(r.final_count, n);
            assert_eq!(r.sends, 1);
        }
    }
}

#[test]
fn run_without_workers_sends_nothing() {
    assert_eq!(serialized_run(0), RunReport { final_count: 0, sends: 0 });
}

#[test]
fn poisoned_lock_is_fatal() {
    let mut count: u64 = 5;
    assert_eq!(worker_turn(&mut count, true, 10), Err(SyncError::LockPoisoned));
    assert_eq!(count, 5);
}

#[test]
fn worker_turn_increments() {
    let mut count: u64 = 8;
    assert_eq!(worker_turn(&mut count, false, 10), Ok(false));
    assert_eq!(worker_turn(&mut count, false, 10), Ok(true));
    assert_eq!(count, 10);
}

#[test]
fn signal_unblocks_main_flow() {
    assert_eq!(receive_outcome(Notice::Signalled), Ok(()));
}

#[test]
fn closed_channel_fails_receive() {
    let (tx, rx) = channel::<()>();
    drop(tx);
    let notice = match rx.recv() {
        Ok(()) => Notice::Signalled,
        Err(_) => Notice::Closed,
    };
    assert_eq!(receive_outcome(notice), Err(SyncError::ChannelClosed));
}

fn failing_critical_section(lock: &Mutex<u64>, target: u64) -> Result<bool, SyncError> {
    let mut guard = lock.lock().unwrap();
    let _notify = worker_turn(&mut guard, false, target)?;
    // A fault after the increment and before the send.
    Err(SyncError::ChannelClosed)
}

#[test]
fn lock_released_after_failure() {
    let lock = Mutex::new(0u64);
    assert_eq!(failing_critical_section(&lock, 1), Err(SyncError::ChannelClosed));
    let mut guard = lock.try_lock().unwrap();
    assert_eq!(*guard, 1);
    assert_eq!(worker_turn(&mut guard, false, 2), Ok(true));
}
