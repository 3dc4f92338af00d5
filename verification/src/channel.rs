//! The two ends of tokio's bounded multi-producer, single-consumer channel,
//! as the clock uses them: a stop channel that the clock polls, and one
//! channel per listener on which ticks are signalled.
use vstd::prelude::*;
use tokio::sync::mpsc::{Receiver, Sender};

verus! {

/// The sending end of a tokio bounded channel; its contents are opaque here.
#[verifier::external_type_specification]
#[verifier::external_body]
#[verifier::reject_recursive_types(T)]
pub struct ExSender<T>(Sender<T>);

/// The receiving end of a tokio bounded channel; its contents are opaque here.
#[verifier::external_type_specification]
#[verifier::external_body]
#[verifier::reject_recursive_types(T)]
pub struct ExReceiver<T>(Receiver<T>);

/// What `Receiver::max_capacity` returns: the number of messages the
/// channel holds at most, the bound it was made with. It never changes.
pub uninterp spec fn receiver_max_capacity(receiver: Receiver<()>) -> usize;

/// What `Sender::max_capacity` returns: the number of messages the channel
/// holds at most, the bound it was made with. It never changes.
pub uninterp spec fn sender_max_capacity(sender: Sender<()>) -> usize;

/// Calls `tokio::sync::mpsc::channel`, which makes a new bounded channel that
/// holds at most `capacity` messages and returns its two ends. tokio asserts
/// `capacity > 0` and `capacity <= usize::MAX >> 3` (its semaphore's
/// `MAX_PERMITS`), so both are required. Both ends report `capacity` as their
/// `max_capacity` (tokio keeps it as the channel semaphore's `bound`).
/// Nothing else is claimed of the ends, not even that they belong to one
/// channel: a channel's identity has no name here.
#[verifier::external_body]
pub(crate) fn unit_channel(capacity: usize) -> (ends: (Sender<()>, Receiver<()>))
    requires
        0 < capacity,
        capacity <= usize::MAX / 8,
    ensures
        sender_max_capacity(ends.0) == capacity,
        receiver_max_capacity(ends.1) == capacity,
{
    tokio::sync::mpsc::channel(capacity)
}

/// Calls `Receiver::try_recv` once, without waiting: `true` when a message
/// was taken off the channel, `false` when it was empty or every sender is
/// gone. Which one happens depends on other tasks, so nothing is claimed of
/// the result. `try_recv` takes the receiver by `&mut` but changes only the
/// channel's shared queue behind the handle (`chan.rs`, through the `Arc`
/// the handle holds); the handle itself is the same afterwards, which is all
/// that is claimed of it.
#[verifier::external_body]
pub(crate) fn try_take(receiver: &mut Receiver<()>) -> (taken: bool)
    ensures
        *final(receiver) == *old(receiver),
{
    match receiver.try_recv() {
        Ok(()) => true,
        Err(_) => false,
    }
}

} // verus!
