//! A subscriber's outbound queue with a send that never waits.
use tokio::sync::mpsc::Permit;
use tokio::sync::mpsc::Receiver;
use tokio::sync::mpsc::Sender;
use tokio::sync::oneshot;
use vstd::prelude::*;

verus! {

/// `tokio::sync::mpsc::Sender`: the sending half of a bounded channel.
#[verifier::external_type_specification]
#[verifier::external_body]
#[verifier::reject_recursive_types(T)]
pub struct ExSender<T>(Sender<T>);

/// `tokio::sync::mpsc::Permit`: one reserved slot of a bounded channel.
#[verifier::external_type_specification]
#[verifier::external_body]
#[verifier::reject_recursive_types(T)]
pub struct ExPermit<'a, T>(Permit<'a, T>);

/// `tokio::sync::mpsc::Receiver`: the receiving half of a bounded channel.
#[verifier::external_type_specification]
#[verifier::external_body]
#[verifier::reject_recursive_types(T)]
pub struct ExReceiver<T>(Receiver<T>);

/// `tokio::sync::oneshot::Sender`: the sending half of a channel that carries
/// one value.
#[verifier::external_type_specification]
#[verifier::external_body]
#[verifier::reject_recursive_types(T)]
pub struct ExOneshotSender<T>(oneshot::Sender<T>);

/// The buffer sizes with which a bounded channel can be made: at least one
/// slot, and no more than the channel's semaphore can count.
pub open spec fn valid_buffer(buffer: usize) -> bool {
    0 < buffer <= usize::MAX / 8
}

/// `tokio::sync::mpsc::channel`: the two halves of a new bounded channel. It
/// panics on a buffer of zero or of more than `usize::MAX >> 3` slots.
#[verifier::external_body]
fn open_channel<T>(buffer: usize) -> (ends: (Sender<T>, Receiver<T>))
    requires
        valid_buffer(buffer),
{
    tokio::sync::mpsc::channel(buffer)
}

/// `oneshot::Sender::send`: hands the value to the receiver. Returns whether
/// it was taken; it is not when the receiver is gone.
#[verifier::external_body]
fn reply<T>(sender: oneshot::Sender<T>, value: T) -> (taken: bool) {
    sender.send(value).is_ok()
}

/// `Sender::try_reserve`: a slot of the channel if one is free and the channel
/// is open. Whether one is depends on the receiver, so nothing is promised.
#[verifier::external_body]
fn try_reserve<T>(tx: &Sender<T>) -> (slot: Option<Permit<'_, T>>) {
    tx.try_reserve().ok()
}

/// `Permit::send`: puts the value into the reserved slot. It cannot fail.
#[verifier::external_body]
fn send_reserved<T>(slot: Permit<'_, T>, value: T) {
    slot.send(value)
}

/// A subscriber: the sending half of its bounded queue.
#[verifier::reject_recursive_types(T)]
pub struct Watch<T>(pub Sender<T>);

impl<T: Clone> Watch<T> {
    /// Tries once to queue a clone of `update`, without waiting. Returns
    /// whether it was queued; `false` means the queue is full or closed.
    pub fn update(&self, update: &T) -> (sent: bool) {
        match try_reserve(&self.0) {
            Some(slot) => {
                send_reserved(slot, update.clone());
                true
            },
            None => false,
        }
    }
}

/// A request for a stream of `T`: the requester waits on `stream_sender` for
/// the receiving half of a queue of `buffer` slots.
#[verifier::reject_recursive_types(T)]
pub struct WatchRequest<T> {
    pub id: u64,
    pub stream_sender: oneshot::Sender<Receiver<T>>,
    pub buffer: usize,
}

/// Whether a buffer size is one with which a queue can be made.
pub fn is_valid_buffer(buffer: usize) -> (valid: bool)
    ensures
        valid == valid_buffer(buffer),
{
    0 < buffer && buffer <= usize::MAX / 8
}

/// Makes the queue that a request asks for and hands its receiving half to
/// the requester. Returns the watcher on the sending half, or `None` where
/// the requester is gone.
pub fn open_stream<T>(stream_sender: oneshot::Sender<Receiver<T>>, buffer: usize) -> (watch: Option<
    Watch<T>,
>)
    requires
        valid_buffer(buffer),
{
    let (tx, rx) = open_channel(buffer);
    if reply(stream_sender, rx) {
        Some(Watch(tx))
    } else {
        None
    }
}

/// The watchers that stay after each was sent an update: those whose send
/// succeeded, in their order. `sent` holds the outcome for each watcher.
pub open spec fn kept_by<W>(watchers: Seq<W>, sent: Seq<bool>) -> Seq<W>
    decreases watchers.len(),
{
    if watchers.len() == 0 || sent.len() != watchers.len() {
        Seq::empty()
    } else {
        let rest = kept_by(watchers.drop_last(), sent.drop_last());
        if sent.last() {
            rest.push(watchers.last())
        } else {
            rest
        }
    }
}

/// Keeps a watcher if, and only if, the update reached its queue.
pub fn keep_if_sent<T>(kept: &mut Vec<Watch<T>>, watch: Watch<T>, sent: bool)
    ensures
        final(kept)@ == if sent {
            old(kept)@.push(watch)
        } else {
            old(kept)@
        },
{
    if sent {
        kept.push(watch);
    }
}

/// Sends `update` to every watcher once and returns those that took it, in
/// their order. The others are dropped.
pub fn retain_sent<T: Clone>(watchers: Vec<Watch<T>>, update: &T) -> (kept: Vec<Watch<T>>)
    ensures
        exists|sent: Seq<bool>| sent.len() == watchers@.len() && kept@ == kept_by(watchers@, sent),
{
    let mut kept: Vec<Watch<T>> = Vec::new();
    let ghost mut outcomes: Seq<bool> = Seq::empty();
    let ghost all = watchers@;
    for watch in it: watchers
        invariant
            it.seq() == all,
            outcomes.len() == it.index(),
            kept@ == kept_by(all.take(it.index()), outcomes),
    {
        let sent = watch.update(update);
        proof {
            let n = it.index();
            assert(all.take(n + 1).drop_last() =~= all.take(n));
            assert(outcomes.push(sent).drop_last() =~= outcomes);
            outcomes = outcomes.push(sent);
        }
        keep_if_sent(&mut kept, watch, sent);
    }
    proof {
        assert(all.take(all.len() as int) =~= all);
    }
    kept
}

} // verus!
