//! The relay: a process-wide context that carries signal notifications from
//! handler context into a queue, and the handle that admits one consumer.
use crate::catalog::Signal;
use std::sync::atomic::{AtomicBool, Ordering};
use std::sync::mpsc::{Receiver, Sender};
use vstd::prelude::*;

verus! {

#[verifier::external_type_specification]
#[verifier::external_body]
#[verifier::reject_recursive_types(T)]
pub struct ExSender<T>(Sender<T>);

#[verifier::external_type_specification]
#[verifier::external_body]
#[verifier::reject_recursive_types(T)]
pub struct ExReceiver<T>(Receiver<T>);

/// Relies on `std::sync::mpsc::channel`: a new unbounded queue, as its two ends.
pub assume_specification<T>[ std::sync::mpsc::channel::<T> ]() -> (Sender<T>, Receiver<T>);

/// Relies on `Sender::send`: appends `s` to the queue without blocking. The
/// outcome is dropped, since handler context has no way to report it.
#[verifier::external_body]
fn enqueue(sender: &Sender<Signal>, s: Signal) {
    let _ = sender.send(s);
}

/// Relies on `Receiver::try_recv`: the oldest queued value if there is one
/// now, `None` otherwise, without blocking.
#[verifier::external_body]
fn dequeue(receiver: &Receiver<Signal>) -> (r: Option<Signal>) {
    receiver.try_recv().ok()
}

/// Relies on `AtomicBool::store`: with `Relaxed` ordering it neither panics
/// nor waits, which lets a destructor call it.
#[verifier::external_body]
fn clear(flag: &AtomicBool)
    opens_invariants none
    no_unwind
{
    flag.store(false, Ordering::Relaxed);
}

/// The notification that a handler invocation for `code` queues: the
/// catalog's signal for that code while a handle is live, and nothing when
/// none is or when the code is outside the catalog.
pub fn notification(active: bool, code: i32) -> (r: Option<Signal>)
    ensures
        r == (if active { Signal::signal_of_code(code) } else { None::<Signal> }),
{
    if active {
        Signal::from_code(code)
    } else {
        None
    }
}

/// The shared state behind every handle: the flag that is set exactly while a
/// handle is live, and both ends of the queue. It is made once per process and
/// kept for the rest of its life, since a handler may reach it at any moment.
pub struct Relay {
    active: AtomicBool,
    sender: Sender<Signal>,
    receiver: Receiver<Signal>,
}

impl Relay {
    /// The receiving end of the relay's queue.
    pub closed spec fn receiver_spec(self) -> Receiver<Signal> {
        self.receiver
    }

    /// A relay with no live handle and an empty queue.
    pub fn new() -> (r: Relay) {
        let (sender, receiver) = std::sync::mpsc::channel();
        Relay { active: AtomicBool::new(false), sender, receiver }
    }

    /// What the operating system's handler does for a delivery of `code`: it
    /// reads the flag, and queues `notification(active, code)` if there is one.
    /// It neither blocks nor allocates beyond the queue's own push.
    pub fn dispatch(&self, code: i32) {
        let active = self.active.load(Ordering::Relaxed);
        if let Some(s) = notification(active, code) {
            enqueue(&self.sender, s);
        }
    }
}

/// The flag after a creation attempt that found it at `active`, and whether
/// that attempt obtained a handle. The attempt is one compare-and-swap, so
/// attempts that race take effect one after another in some order.
pub open spec fn create_step(active: bool) -> (bool, bool) {
    (true, !active)
}

/// The flag after a live handle is released.
pub open spec fn release_step(active: bool) -> bool {
    false
}

/// Of two creation attempts made while no handle is live, in whichever order
/// they take effect, exactly one obtains a handle.
pub proof fn lemma_one_of_two_creations(active: bool)
    requires
        !active,
    ensures
        create_step(active).1 != create_step(create_step(active).0).1,
        create_step(active).1 || create_step(create_step(active).0).1,
{
}

/// Once the live handle is released, the next creation attempt obtains one.
pub proof fn lemma_create_after_release(active: bool)
    ensures
        create_step(release_step(active)).1,
{
}

/// A live handle on a relay. While it exists no other handle on the same
/// relay can be created; dropping it clears the relay's flag. Dropping it does
/// not undo the subscriptions made through it.
pub struct Signals<'a> {
    relay: &'a Relay,
}

impl<'a> Signals<'a> {
    /// The relay that this handle belongs to.
    pub closed spec fn relay_spec(self) -> &'a Relay {
        self.relay
    }

    /// Claims the relay: a handle if none was live, `None` if one is. The
    /// flag is tested and set by one compare-and-swap, so of attempts that
    /// race exactly one succeeds (see `create_step`).
    pub fn new(relay: &'a Relay) -> (r: Option<Signals<'a>>)
        ensures
            r matches Some(h) ==> h.relay_spec() == relay,
    {
        match relay.active.compare_exchange(false, true, Ordering::Relaxed, Ordering::Relaxed) {
            Ok(_) => Some(Signals { relay }),
            Err(_) => None,
        }
    }

    /// The relay that this handle belongs to.
    pub fn relay(&self) -> (r: &'a Relay)
        ensures
            r == self.relay_spec(),
    {
        self.relay
    }

    /// A non-blocking reader of the notifications queued so far.
    pub fn iter(&self) -> (r: SignalIter<'a>)
        ensures
            r.relay_spec() == self.relay_spec(),
    {
        SignalIter { relay: self.relay }
    }

    /// The receiving end of the queue, for a caller who wants to wait for the
    /// next notification. It is the queue that `iter` reads: use one of the
    /// two at a time.
    pub fn receiver(&self) -> (r: &'a Receiver<Signal>)
        ensures
            *r == self.relay_spec().receiver_spec(),
    {
        &self.relay.receiver
    }
}

impl<'a> Drop for Signals<'a> {
    fn drop(&mut self)
        opens_invariants none
        no_unwind
    {
        clear(&self.relay.active);
    }
}

/// Reads queued notifications one at a time, never waiting for one.
pub struct SignalIter<'a> {
    relay: &'a Relay,
}

impl<'a> SignalIter<'a> {
    /// The relay whose queue this reader drains.
    pub closed spec fn relay_spec(self) -> &'a Relay {
        self.relay
    }

    /// The oldest queued notification, or `None` at once if the queue is
    /// empty now.
    pub fn next(&mut self) -> (r: Option<Signal>)
        ensures
            *final(self) == *old(self),
    {
        dequeue(&self.relay.receiver)
    }
}

} // verus!
