//! The one-shot channels through which a reply reaches the ping that waits for it.

use vstd::prelude::*;

use futures::channel::oneshot;

use crate::time::Instant;

verus! {

/// The half of a one-shot channel that is written to.
#[verifier::external_type_specification]
#[verifier::external_body]
#[verifier::reject_recursive_types(T)]
pub struct ExSender<T>(oneshot::Sender<T>);

/// The half of a one-shot channel that is waited on.
#[verifier::external_type_specification]
#[verifier::external_body]
#[verifier::reject_recursive_types(T)]
pub struct ExReceiver<T>(oneshot::Receiver<T>);

/// What a receiver reports when its sender is gone.
#[verifier::external_type_specification]
#[verifier::external_body]
pub struct ExCanceled(oneshot::Canceled);

/// `futures::channel::oneshot::channel`. Claims nothing of the two halves: each
/// call makes a channel of its own.
#[verifier::external_body]
fn new_channel() -> (halves: (oneshot::Sender<Instant>, oneshot::Receiver<Instant>)) {
    oneshot::channel()
}

/// `futures::channel::oneshot::Sender::send`. Claims that a value that could not
/// be handed over comes back as it was; whether it can be handed over depends on
/// whether the receiver is still there.
#[verifier::external_body]
fn send(sender: oneshot::Sender<Instant>, value: Instant) -> (outcome: Result<(), Instant>)
    ensures
        outcome matches Err(returned) ==> returned == value,
{
    sender.send(value)
}

/// Whether `sender` and `receiver` are the two halves of one channel: one call
/// that made a channel returned both.
pub closed spec fn connected(
    sender: oneshot::Sender<Instant>,
    receiver: oneshot::Receiver<Instant>,
) -> bool {
    call_ensures(new_channel, (), (sender, receiver))
}

/// Whether `value` was sent through `sender`.
pub closed spec fn sent(sender: oneshot::Sender<Instant>, value: Instant) -> bool {
    exists|outcome: Result<(), Instant>| call_ensures(send, (sender, value), outcome)
}

/// Makes a channel.
pub fn open_channel() -> (halves: (oneshot::Sender<Instant>, oneshot::Receiver<Instant>))
    ensures
        connected(halves.0, halves.1),
{
    new_channel()
}

/// Sends `value` through `sender`. That nobody waits any more is no error.
pub fn notify(sender: oneshot::Sender<Instant>, value: Instant)
    ensures
        sent(sender, value),
{
    let _outcome = send(sender, value);
}

/// The two halves that count as connected came out of one call, and so do those of a
/// channel that is opened.
proof fn law_connected(sender: oneshot::Sender<Instant>, receiver: oneshot::Receiver<Instant>)
    requires
        connected(sender, receiver) || call_ensures(open_channel, (), (sender, receiver)),
    ensures
        call_ensures(new_channel, (), (sender, receiver)),
{
}

/// What counts as sent was handed to that very sender, and what is notified is sent.
proof fn law_sent(sender: oneshot::Sender<Instant>, value: Instant)
    requires
        sent(sender, value) || call_ensures(notify, (sender, value), ()),
    ensures
        exists|outcome: Result<(), Instant>| call_ensures(send, (sender, value), outcome),
{
}

} // verus!
