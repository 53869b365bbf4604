//! The notification channel: a capacity-one broadcast channel in drop-oldest
//! overflow mode, used to wake suspended waiters promptly.
//!
//! Delivery is best effort and carries no payload; the exit flag, not the
//! channel, is the authoritative record of whether exit was signalled. The
//! contracts therefore state only what publishing can return, never which
//! subscriber wakes when.

use async_broadcast::Receiver;
use async_broadcast::Sender;
use async_broadcast::TrySendError;
use vstd::prelude::*;

verus! {

#[verifier::external_type_specification]
#[verifier::external_body]
#[verifier::reject_recursive_types(T)]
pub struct ExSender<T>(Sender<T>);

#[verifier::external_type_specification]
#[verifier::external_body]
#[verifier::reject_recursive_types(T)]
pub struct ExReceiver<T>(Receiver<T>);

/// Whether the channel this publisher belongs to is in drop-oldest overflow
/// mode. This crate turns the mode on when it creates a channel and never
/// turns it off again.
pub uninterp spec fn overflow_on(s: Sender<()>) -> bool;

/// The identity of the channel this publisher publishes to. An endpoint
/// never moves to another channel, so the identity is a fixed property of
/// the endpoint value; two endpoints with equal identity are connected.
pub uninterp spec fn sender_channel_id(s: Sender<()>) -> int;

/// The identity of the channel this subscriber receives from. See
/// [`sender_channel_id`].
pub uninterp spec fn receiver_channel_id(r: Receiver<()>) -> int;

/// The capacity the channel this publisher belongs to was created with.
/// This crate never changes a channel's capacity after creation.
pub uninterp spec fn channel_capacity(s: Sender<()>) -> int;

/// Whether a notification has ever been published on the channel this
/// publisher belongs to. A publish can report success only when it holds,
/// so a successful signal cannot be fabricated without a real publish.
/// No contract claims its negation.
pub uninterp spec fn notice_published(s: Sender<()>) -> bool;

/// Why a notification could not be published. Mirrors the publisher's
/// failure cases one for one.
#[derive(Clone, Copy, Debug, PartialEq, Eq, Structural)]
pub enum NotifyError {
    /// The channel was full and not in overflow mode.
    Full,
    /// The channel was closed: no subscriber can ever be woken again.
    Closed,
    /// Every remaining subscriber is inactive.
    Inactive,
}

/// Relies on `async_broadcast::broadcast(1)`: returns a connected
/// publisher/subscriber pair for a fresh capacity-one channel.
#[verifier::external_body]
pub(crate) fn notify_channel() -> (pair: (Sender<()>, Receiver<()>))
    ensures
        sender_channel_id(pair.0) == receiver_channel_id(pair.1),
        channel_capacity(pair.0) == 1,
{
    async_broadcast::broadcast(1)
}

/// Relies on `Sender::set_overflow(true)`: afterwards the channel is in
/// drop-oldest overflow mode; the call reconfigures the channel in place,
/// moving the publisher to no other channel and changing no capacity.
#[verifier::external_body]
pub(crate) fn enable_overflow(s: &mut Sender<()>)
    ensures
        overflow_on(*final(s)),
        sender_channel_id(*final(s)) == sender_channel_id(*old(s)),
        channel_capacity(*final(s)) == channel_capacity(*old(s)),
{
    s.set_overflow(true)
}

/// Relies on `Sender::clone`: the clone publishes to the very same channel,
/// so it inherits the channel's overflow mode, identity and capacity.
#[verifier::external_body]
pub(crate) fn notifier_share(s: &Sender<()>) -> (r: Sender<()>)
    ensures
        overflow_on(*s) ==> overflow_on(r),
        sender_channel_id(r) == sender_channel_id(*s),
        channel_capacity(r) == channel_capacity(*s),
{
    s.clone()
}

/// Relies on `Receiver::clone`: the clone is a subscriber to the same channel
/// with the same notifications queued, and it also receives every
/// notification published after the clone was taken.
#[verifier::external_body]
pub(crate) fn subscriber_share(r: &Receiver<()>) -> (g: Receiver<()>)
    ensures
        receiver_channel_id(g) == receiver_channel_id(*r),
{
    r.clone()
}

/// Relies on `Sender::try_broadcast`: it never blocks; on success the
/// notification really was enqueued on the channel, and it fails with
/// `Full` only when the channel is full and not in overflow mode — in
/// overflow mode it drops the oldest queued notification and succeeds. The
/// other failures are `Closed` (the channel was closed) and `Inactive`
/// (subscribers remain but all are inactive).
#[verifier::external_body]
pub(crate) fn notify_now(s: &Sender<()>) -> (r: Result<(), NotifyError>)
    ensures
        overflow_on(*s) ==> !(r matches Err(NotifyError::Full)),
        r is Ok ==> notice_published(*s),
{
    match s.try_broadcast(()) {
        Ok(_) => Ok(()),
        Err(TrySendError::Full(())) => Err(NotifyError::Full),
        Err(TrySendError::Closed(())) => Err(NotifyError::Closed),
        Err(TrySendError::Inactive(())) => Err(NotifyError::Inactive),
    }
}

} // verus!
