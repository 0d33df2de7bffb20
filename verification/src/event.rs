//! A typed publish/subscribe event bus.
//!
//! The bus keeps an ordered sequence of registered callbacks.  Firing an
//! event hands every callback, in registration order, its own clone of the
//! fired value.  Callbacks are never removed; the bus performs no locking
//! of its own and a callback must not re-enter the bus it was registered
//! on.

use vstd::prelude::*;

verus! {

/// A type-erased single-argument callable, the shape every callback
/// registered on an [`Event`] bus must take.
///
/// `received()` is the abstract log of the values the callable has been
/// handed so far, oldest first; `invoke` appends exactly the value it was
/// given.  An implementor is free to do anything else with the value as
/// long as it can account for that log (a ghost field suffices).  The
/// default `received` keeps no log at all; an implementor that wants its
/// deliveries verified overrides it, since only an overriding log can
/// grow the way `invoke` promises.
pub trait Invocable<T>: Sized {
    /// The values this callable has received so far, oldest first.
    open spec fn received(&self) -> Seq<T> {
        Seq::empty()
    }

    /// Hand one value to the callable.
    fn invoke(&mut self, value: T)
        ensures
            final(self).received() == old(self).received().push(value);
}

/// What one trigger does to one registered callback: the callback's log
/// grows by exactly one value, and that value is a clone of the fired one.
pub open spec fn delivered_to<T: Clone, H: Invocable<T>>(before: H, after: H, value: T) -> bool {
    exists|c: T| #[trigger] cloned::<T>(value, c) && after.received() == before.received().push(c)
}

/// An ordered collection of registered callbacks for values of type `T`.
///
/// Created empty; callbacks are appended only and never removed.  The bus
/// itself performs no locking: sharing it between call paths is the
/// owner's concern.
pub struct Event<T, H> {
    callbacks: Vec<H>,
    fired: Ghost<Seq<T>>,
}

impl<T: Clone, H: Invocable<T>> Event<T, H> {
    /// The registered callbacks, in registration order.
    pub closed spec fn subscribers(&self) -> Seq<H> {
        self.callbacks@
    }

    /// Every value ever fired on this bus, oldest first.
    pub closed spec fn history(&self) -> Seq<T> {
        self.fired@
    }

    /// An empty bus: no callbacks, nothing fired yet.
    pub fn new() -> (bus: Self)
        ensures
            bus.subscribers().len() == 0,
            bus.history().len() == 0,
    {
        Event { callbacks: Vec::new(), fired: Ghost(Seq::empty()) }
    }

    /// Register one more callback.  Earlier registrations keep their
    /// place: the new callback is appended after all of them.
    pub fn subscribe(&mut self, callback: H)
        ensures
            final(self).subscribers() == old(self).subscribers().push(callback),
            final(self).history() == old(self).history(),
    {
        self.callbacks.push(callback);
    }

    /// Fire `event`: every registered callback, taken in registration
    /// order (ascending index), is invoked exactly once with its own
    /// clone of `event`.  Returns only after the last callback has
    /// returned.  With no subscribers this is a no-op.
    pub fn trigger(&mut self, event: T)
        ensures
            final(self).subscribers().len() == old(self).subscribers().len(),
            forall|i: int|
                0 <= i < old(self).subscribers().len() ==> delivered_to(
                    old(self).subscribers()[i],
                    final(self).subscribers()[i],
                    event,
                ),
            old(self).subscribers().len() == 0 ==> final(self).subscribers()
                == old(self).subscribers(),
            final(self).history() == old(self).history().push(event),
    {
        let n = self.callbacks.len();
        let mut i: usize = 0;
        while i < n
            invariant
                i <= n,
                n == self.callbacks@.len(),
                self.callbacks@.len() == old(self).callbacks@.len(),
                forall|j: int|
                    0 <= j < i ==> delivered_to(
                        old(self).callbacks@[j],
                        self.callbacks@[j],
                        event,
                    ),
                forall|j: int| i <= j < n ==> self.callbacks@[j] == old(self).callbacks@[j],
                self.fired == old(self).fired,
            decreases n - i,
        {
            let value = event.clone();
            let ghost witness = value;
            let callback = &mut self.callbacks[i];
            callback.invoke(value);
            proof {
                assert(cloned::<T>(event, witness));
                assert(self.callbacks@[i as int].received()
                    == old(self).callbacks@[i as int].received().push(witness));
                assert(delivered_to(old(self).callbacks@[i as int], self.callbacks@[i as int], event));
            }
            i += 1;
        }
        proof {
            if self.callbacks@.len() == 0 {
                assert(self.callbacks@ =~= old(self).callbacks@);
            }
        }
        self.fired = Ghost(self.fired@.push(event));
    }

    /// How many callbacks are registered.
    pub fn subscriber_count(&self) -> (n: usize)
        ensures
            n == self.subscribers().len(),
    {
        self.callbacks.len()
    }

    /// A view of the `i`-th registered callback, counted in registration
    /// order.
    pub fn subscriber_at(&self, i: usize) -> (callback: &H)
        requires
            i < self.subscribers().len(),
        ensures
            *callback == self.subscribers()[i as int],
    {
        &self.callbacks[i]
    }
}

/// Law: a trigger that delivered to every registered callback grew each
/// callback's log by exactly one value, and that value is clone-equal to
/// the fired one.  The callback subscribed `i`-th stands at index `i`
/// before and after, so deliveries follow registration order.
pub proof fn law_single_delivery<T: Clone, H: Invocable<T>>(
    pre: Event<T, H>,
    post: Event<T, H>,
    value: T,
)
    requires
        post.subscribers().len() == pre.subscribers().len(),
        forall|i: int|
            0 <= i < pre.subscribers().len() ==> delivered_to(
                pre.subscribers()[i],
                post.subscribers()[i],
                value,
            ),
    ensures
        forall|i: int|
            #![trigger post.subscribers()[i]]
            0 <= i < pre.subscribers().len() ==> post.subscribers()[i].received()
                == pre.subscribers()[i].received().push(post.subscribers()[i].received().last()),
        forall|i: int|
            #![trigger post.subscribers()[i]]
            0 <= i < pre.subscribers().len() ==> cloned::<T>(
                value,
                post.subscribers()[i].received().last(),
            ),
{
    assert forall|i: int| #![trigger post.subscribers()[i]]
        0 <= i < pre.subscribers().len() implies post.subscribers()[i].received()
        == pre.subscribers()[i].received().push(post.subscribers()[i].received().last())
        && cloned::<T>(value, post.subscribers()[i].received().last()) by {
        assert(delivered_to(pre.subscribers()[i], post.subscribers()[i], value));
        let c = choose|c: T| #[trigger]
            cloned::<T>(value, c) && post.subscribers()[i].received()
                == pre.subscribers()[i].received().push(c);
        assert(post.subscribers()[i].received().last() == c);
    }
}

/// A callback that simply records every value it receives, in order.
///
/// It is the simplest [`Invocable`] and the one the crate's own tests
/// observe deliveries with.
pub struct Recorder<T> {
    seen: Vec<T>,
}

impl<T> Recorder<T> {
    /// A recorder that has seen nothing yet.
    pub fn new() -> (r: Self)
        ensures
            r.received().len() == 0,
    {
        Recorder { seen: Vec::new() }
    }

    /// The values received so far, oldest first.
    pub fn values(&self) -> (values: &Vec<T>)
        ensures
            values@ == self.received(),
    {
        &self.seen
    }
}

impl<T> Invocable<T> for Recorder<T> {
    closed spec fn received(&self) -> Seq<T> {
        self.seen@
    }

    fn invoke(&mut self, value: T) {
        self.seen.push(value);
    }
}

} // verus!
