//! The cloneable handle onto the shared signal state.
//!
//! Every [`ChexInstance`] is an independent view of one shared state: a
//! reference to the exit flag, a publisher for the notification channel, and
//! a subscriber template. Signalling sets the flag first and publishes the
//! wake-up second, so the flag never lags behind a notification.

use crate::flag::flag_ever_set;
use crate::flag::flag_load;
use crate::flag::flag_new;
use crate::flag::flag_observed_set;
use crate::flag::flag_share;
use crate::flag::flag_store_true;
use crate::notify::channel_capacity;
use crate::notify::enable_overflow;
use crate::notify::notice_published;
use crate::notify::notifier_share;
use crate::notify::notify_channel;
use crate::notify::notify_now;
use crate::notify::overflow_on;
use crate::notify::receiver_channel_id;
use crate::notify::sender_channel_id;
use crate::notify::subscriber_share;
use crate::notify::NotifyError;
use async_broadcast::Receiver;
use async_broadcast::Sender;
use std::sync::atomic::AtomicBool;
use std::sync::Arc;
use vstd::prelude::*;

verus! {

/// A cheap handle bound to the shared signal state. Clone it freely: all
/// clones poll, signal and subscribe against the same state.
pub struct ChexInstance {
    exit: Arc<AtomicBool>,
    notifier: Sender<()>,
    subscriber: Receiver<()>,
}

impl ChexInstance {
    /// Whether this handle has witnessed the exit flag set. Monotone: once it
    /// holds of a handle, it holds of the handle forever and of every handle
    /// later cloned from it, and polling through such a handle returns `true`.
    pub closed spec fn exit_known(self) -> bool {
        flag_observed_set(self.exit)
    }

    /// Whether this handle's shared exit flag is ever set. Polling can
    /// return `true` only when this holds, so a `true` reading always traces
    /// back to a real signal.
    pub closed spec fn exit_ever_set(self) -> bool {
        flag_ever_set(self.exit)
    }

    /// Whether a notification has ever been published on this handle's
    /// channel. A successful [`ChexInstance::signal_exit`] establishes it.
    pub closed spec fn notified(self) -> bool {
        notice_published(self.notifier)
    }

    /// The identity of this handle's notification channel: handles with
    /// equal identity publish to and subscribe from one channel.
    pub closed spec fn channel_id(self) -> int {
        sender_channel_id(self.notifier)
    }

    /// The capacity this handle's channel was created with; always 1 for a
    /// channel built by this crate.
    pub closed spec fn capacity(self) -> int {
        channel_capacity(self.notifier)
    }

    /// Whether two handles are views of one signal state: they share the
    /// exit flag, and their publishers feed the same channel. A signal
    /// through either is then a signal for both.
    pub closed spec fn shares_state_with(self, other: ChexInstance) -> bool {
        &&& self.exit == other.exit
        &&& self.channel_id() == other.channel_id()
    }

    /// Well-formedness: the notification channel is in drop-oldest overflow
    /// mode, so publishing never fails for want of room, and the handle's
    /// subscriber template really subscribes to the handle's own channel.
    /// Construction establishes it and every operation preserves it.
    pub closed spec fn wf(self) -> bool {
        &&& overflow_on(self.notifier)
        &&& receiver_channel_id(self.subscriber) == self.channel_id()
    }

    /// Create fresh signal state: an exit flag holding `false` and a
    /// connected capacity-one notification channel in overflow mode.
    pub fn new() -> (r: Self)
        ensures
            r.wf(),
            !r.exit_known(),
            r.capacity() == 1,
    {
        let (mut tx, rx) = notify_channel();
        enable_overflow(&mut tx);
        ChexInstance { exit: flag_new(), notifier: tx, subscriber: rx }
    }

    /// Non-blocking read of the exit flag. A handle that has witnessed the
    /// signal always reads `true`, and a `true` reading comes only from a
    /// flag that really was set. A `false` reading cannot be promised, since
    /// another participant may signal at any moment.
    pub fn poll_exit(&self) -> (r: bool)
        ensures
            self.exit_known() ==> r,
            r ==> self.exit_ever_set(),
    {
        flag_load(&self.exit)
    }

    /// Signal every listener to exit: set the exit flag, then publish a
    /// wake-up to all current subscribers.
    ///
    /// The flag is set no matter what the channel does, and redundant calls
    /// are harmless — the flag transition is first-writer-wins. On a
    /// well-formed handle the publish can fail only because the channel is
    /// closed or every subscriber is inactive; the caller should treat such a
    /// failure as fatal, because a suspended waiter might then never wake.
    pub fn signal_exit(&mut self) -> (r: Result<(), NotifyError>)
        ensures
            final(self).exit_known(),
            final(self).exit_ever_set(),
            final(self).channel_id() == old(self).channel_id(),
            r is Ok ==> final(self).notified(),
            old(self).wf() ==> final(self).wf(),
            old(self).wf() ==> !(r matches Err(NotifyError::Full)),
    {
        flag_store_true(&mut self.exit);
        notify_now(&self.notifier)
    }

    /// A fresh subscriber to this handle's own channel, carrying the same
    /// queued notifications as the handle's template and every notification
    /// published from now on. The waiting discipline of the design is that
    /// the flag must be checked after the subscription exists and before
    /// suspending — exactly as the handle's own template subscribes at
    /// construction and the flag is checked at wait time. A signal landing
    /// before the check is caught by the check; one landing after it wakes
    /// the subscriber; none is lost. The endpoint is for cloning and
    /// receiving; reconfiguring the channel through it would void the
    /// publishing guarantees.
    pub fn subscribe(&self) -> (r: Receiver<()>)
        ensures
            self.wf() ==> receiver_channel_id(r) == self.channel_id(),
    {
        subscriber_share(&self.subscriber)
    }
}

impl Clone for ChexInstance {
    /// A new independent handle onto the same signal state: it shares the
    /// exit flag and feeds the same channel. It carries exactly the
    /// knowledge of the handle it was cloned from: in particular, a handle
    /// cloned after the signal was witnessed polls `true` forever.
    fn clone(&self) -> (r: Self)
        ensures
            r.shares_state_with(*self),
            r.exit_known() == self.exit_known(),
            r.capacity() == self.capacity(),
            self.wf() ==> r.wf(),
    {
        ChexInstance {
            exit: flag_share(&self.exit),
            notifier: notifier_share(&self.notifier),
            subscriber: subscriber_share(&self.subscriber),
        }
    }
}

} // verus!
