use chex::{Chex, ChexInstance, NotifyError};
use futures_lite::future::block_on;

#[test]
fn fresh_handles_poll_false() {
    let mut chex = Chex::new();
    chex.init();
    assert!(chex.is_initialized());
    assert_eq!(chex.poll_exit(), false);
    let ci: ChexInstance = chex.get_instance();
    assert_eq!(ci.poll_exit(), false);
    let clone = ci.clone();
    assert_eq!(clone.poll_exit(), false);
}

#[test]
fn signal_is_monotonic_and_idempotent() {
    let mut chex = Chex::new();
    chex.init();
    let before: ChexInstance = chex.get_instance();
    assert!(chex.signal_exit().is_ok());

    // Every handle, existing or subsequently cloned, now polls true, forever.
    assert_eq!(chex.poll_exit(), true);
    assert_eq!(before.poll_exit(), true);
    let after = before.clone();
    assert_eq!(after.poll_exit(), true);

    // A redundant signal succeeds and changes nothing.
    assert!(chex.signal_exit().is_ok());
    let mut direct = chex.get_instance();
    assert!(direct.signal_exit().is_ok());
    assert_eq!(chex.poll_exit(), true);
    assert_eq!(before.poll_exit(), true);
    assert_eq!(after.poll_exit(), true);
}

#[test]
fn waiter_wakes_on_signal() {
    let mut chex = Chex::new();
    chex.init();
    let ci = chex.get_instance();
    let mut rx = ci.subscribe();
    assert!(chex.signal_exit().is_ok());
    // A subscriber taken before the signal holds the wake-up already: the
    // wait completes without any further event.
    assert!(block_on(rx.recv()).is_ok());
}

#[test]
fn wait_after_signal_takes_fast_path() {
    let mut chex = Chex::new();
    chex.init();
    assert!(chex.signal_exit().is_ok());
    // A waiter that arrives late sees the flag already true and never needs
    // to suspend at all.
    let ci = chex.get_instance();
    assert_eq!(ci.poll_exit(), true);
}

#[test]
fn every_waiter_wakes_on_one_signal() {
    let mut chex = Chex::new();
    chex.init();
    let handles: Vec<ChexInstance> = (0..8).map(|_| chex.get_instance()).collect();
    let mut subscribers: Vec<_> = handles.iter().map(|h| h.subscribe()).collect();
    assert!(chex.signal_exit().is_ok());
    for rx in subscribers.iter_mut() {
        assert!(block_on(rx.recv()).is_ok());
    }
    for h in handles.iter() {
        assert_eq!(h.poll_exit(), true);
    }
}

#[test]
fn repeat_init_keeps_signalled_flag() {
    let mut chex = Chex::new();
    chex.init();
    assert!(chex.signal_exit().is_ok());
    chex.init();
    assert_eq!(chex.poll_exit(), true);
}

#[test]
fn late_instance_sees_earlier_signal() {
    let mut chex = Chex::new();
    chex.init();
    assert!(chex.signal_exit().is_ok());
    let ci = chex.get_instance();
    assert_eq!(ci.poll_exit(), true);
}

#[test]
fn closed_channel_reported_but_flag_still_set() {
    let mut chex = Chex::new();
    chex.init();
    let mut ci = chex.get_instance();
    let rx = ci.subscribe();
    rx.close();
    let r = ci.signal_exit();
    assert_eq!(r, Err(NotifyError::Closed));
    // The flag, not the channel, is the authoritative record.
    assert_eq!(ci.poll_exit(), true);
    assert_eq!(chex.poll_exit(), true);
}
