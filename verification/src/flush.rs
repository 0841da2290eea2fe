//! The signal by which producers ask for an early drain of the event buffer:
//! a flag that collapses the requests made before the aggregator wakes into
//! one wake.
use std::sync::atomic::AtomicBool;
use std::sync::atomic::Ordering;
use tokio::sync::Notify;
use vstd::prelude::*;

verus! {

/// `tokio::sync::Notify`: wakes a task that waits on it.
#[verifier::external_type_specification]
#[verifier::external_body]
pub struct ExNotify(Notify);

/// `Notify::new`: a notifier on which nobody waits yet.
#[verifier::external_body]
fn new_notify() -> (notify: Notify) {
    Notify::new()
}

/// `Notify::notify_one`: wakes one waiter, or stores one permit for the next
/// to wait. It cannot fail.
#[verifier::external_body]
fn notify_one(notify: &Notify) {
    notify.notify_one()
}

/// Whether the trigger whose compare-and-set ended in `swap` is the one that
/// wakes the aggregator: the one that found the flag clear and set it.
pub fn wakes_aggregator(swap: Result<bool, bool>) -> (wakes: bool)
    ensures
        wakes == (swap is Ok),
{
    swap.is_ok()
}

/// The flush signal. `triggered` is set from a trigger until the aggregator
/// has observed the wake.
pub struct Flush {
    pub should_flush: Notify,
    pub triggered: AtomicBool,
}

impl Flush {
    pub fn new() -> (flush: Flush) {
        Flush { should_flush: new_notify(), triggered: AtomicBool::new(false) }
    }

    /// Asks for a drain. Sets the flag if it is clear, with acquire-release
    /// ordering, and only then wakes the aggregator: triggers that find the
    /// flag set do nothing. Returns whether this trigger woke it.
    pub fn trigger(&self) -> (woke: bool) {
        let swap = self.triggered.compare_exchange(false, true, Ordering::AcqRel, Ordering::Acquire);
        if wakes_aggregator(swap) {
            notify_one(&self.should_flush);
            true
        } else {
            false
        }
    }

    /// Clears the flag, with release ordering, so that the next trigger wakes
    /// the aggregator again. The aggregator calls it as soon as it has woken.
    pub fn rearm(&self) {
        self.triggered.store(false, Ordering::Release);
    }
}

} // verus!
