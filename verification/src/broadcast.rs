//! A single slot that always holds the latest position, and the handles
//! through which observers follow it.
//!
//! The slot keeps one value and counts how often it was written. A handle
//! remembers the count it has seen. An observer that is slow therefore misses
//! values that were overwritten in between, and never misses that there was
//! a change. Waking an observer that waits is the caller's part: it asks the
//! handle again after each publication.

use vstd::prelude::*;
use crate::gpio::Input;

verus! {

/// The slot.
#[derive(Clone, Copy, Debug, PartialEq, Eq, Structural)]
pub struct Broadcaster {
    /// The latest value.
    pub value: Input,
    /// The number of publications so far.
    pub version: u64,
}

/// An observer's handle.
#[derive(Clone, Copy, Debug, PartialEq, Eq, Structural)]
pub struct Subscription {
    /// The number of publications that the observer has seen.
    pub seen: u64,
}

impl Broadcaster {
    /// The slot after `value` has been published to it.
    pub open spec fn published(self, value: Input) -> Broadcaster {
        Broadcaster { value, version: (self.version + 1) as u64 }
    }

    /// The handle that `subscribe` gives out on this slot.
    pub open spec fn subscribed(self) -> Subscription {
        Subscription { seen: self.version }
    }

    /// A slot that holds `initial` and has seen no publication.
    pub fn new(initial: Input) -> (b: Broadcaster)
        ensures
            b == (Broadcaster { value: initial, version: 0 }),
    {
        Broadcaster { value: initial, version: 0 }
    }

    /// Whether the counter has room for one more publication.
    pub fn has_room(&self) -> (r: bool)
        ensures
            r == (self.version < u64::MAX),
    {
        self.version < u64::MAX
    }

    /// Overwrites the value. What the slot held before is gone, whether or
    /// not every observer has looked at it.
    pub fn publish(&mut self, value: Input)
        requires
            old(self).version < u64::MAX,
        ensures
            *final(self) == old(self).published(value),
    {
        self.value = value;
        self.version = self.version + 1;
    }

    /// The latest published value.
    pub fn current(&self) -> (v: Input)
        ensures
            v == self.value,
    {
        self.value
    }

    /// A new handle. It has seen everything published so far, and reads the
    /// latest value at once.
    pub fn subscribe(&self) -> (s: Subscription)
        ensures
            s == self.subscribed(),
    {
        Subscription { seen: self.version }
    }
}

impl Subscription {
    /// A handle belongs to a slot when it has seen no more publications than
    /// the slot has had.
    pub open spec fn follows(self, slot: Broadcaster) -> bool {
        self.seen <= slot.version
    }

    /// What `wait_for_change` hands back on `slot`, and the handle after it.
    pub open spec fn waited(self, slot: Broadcaster) -> (Option<Input>, Subscription) {
        if self.seen != slot.version {
            (Some(slot.value), Subscription { seen: slot.version })
        } else {
            (None, self)
        }
    }

    /// The latest value of the slot, without waiting.
    pub fn current(&self, slot: &Broadcaster) -> (v: Input)
        ensures
            v == slot.value,
    {
        slot.value
    }

    /// Whether the slot was published to since this handle last looked.
    pub fn has_changed(&self, slot: &Broadcaster) -> (r: bool)
        ensures
            r == self.waited(*slot).0.is_some(),
    {
        self.seen != slot.version
    }

    /// Takes the next change: the latest value, if the slot was published to
    /// since this handle last looked, and `None` while there is nothing new,
    /// in which case the observer has to wait for the next publication.
    /// Taking a change marks it as seen for this handle alone.
    pub fn wait_for_change(&mut self, slot: &Broadcaster) -> (r: Option<Input>)
        ensures
            (r, *final(self)) == old(self).waited(*slot),
    {
        if self.seen != slot.version {
            self.seen = slot.version;
            Some(slot.value)
        } else {
            None
        }
    }
}

/// After a publication, the next change that any handle of the slot takes is
/// exactly the published value, and the handle is then up to date.
pub proof fn law_publish_reaches_every_subscriber(slot: Broadcaster, handle: Subscription, v: Input)
    requires
        handle.follows(slot),
        slot.version < u64::MAX,
    ensures
        handle.waited(slot.published(v)) == (Some(v), slot.published(v).subscribed()),
{
}

/// A handle made after a publication reads the published value at once, and
/// has no change to wait for.
pub proof fn law_new_subscriber_reads_latest(slot: Broadcaster, v: Input)
    requires
        slot.version < u64::MAX,
    ensures
        slot.published(v).value == v,
        slot.published(v).subscribed().follows(slot.published(v)),
        slot.published(v).subscribed().waited(slot.published(v)).0.is_none(),
{
}

/// Of two publications that a handle has not looked at in between, it takes
/// the later one only.
pub proof fn law_slow_subscriber_sees_latest_only(
    slot: Broadcaster,
    handle: Subscription,
    first: Input,
    second: Input,
)
    requires
        handle.follows(slot),
        slot.version + 1 < u64::MAX,
    ensures
        handle.waited(slot.published(first).published(second)).0 == Some(second),
        handle.waited(slot.published(first).published(second)).1.waited(
            slot.published(first).published(second),
        ).0.is_none(),
{
}

} // verus!
