//! Accounting of driver-handle creation and destruction.
//!
//! Every operation that would acquire or release a driver resource
//! (instance, debug messenger, logical device) records an event in a
//! [`DriverLog`].  Leak freedom is stated over the log: a handle is live
//! when it was created more often than destroyed.

use vstd::prelude::*;

verus! {

/// One driver-resource acquisition or release.
#[derive(Clone, Copy, Debug, PartialEq, Eq, Structural)]
pub enum DriverEvent {
    InstanceCreated,
    InstanceDestroyed,
    MessengerCreated,
    MessengerDestroyed,
    DeviceCreated,
    DeviceDestroyed,
}

/// How often `e` occurs in `s`.
pub open spec fn count_of(s: Seq<DriverEvent>, e: DriverEvent) -> int
    decreases s.len(),
{
    if s.len() == 0 {
        0
    } else {
        count_of(s.drop_last(), e) + if s.last() == e {
            1int
        } else {
            0int
        }
    }
}

pub broadcast proof fn lemma_count_push(s: Seq<DriverEvent>, e: DriverEvent, k: DriverEvent)
    ensures
        #[trigger] count_of(s.push(e), k) == count_of(s, k) + if e == k {
            1int
        } else {
            0int
        },
{
    assert(s.push(e).drop_last() =~= s);
}

pub broadcast proof fn lemma_count_concat(s: Seq<DriverEvent>, t: Seq<DriverEvent>, k: DriverEvent)
    ensures
        #[trigger] count_of(s + t, k) == count_of(s, k) + count_of(t, k),
    decreases t.len(),
{
    if t.len() == 0 {
        assert(s + t =~= s);
    } else {
        lemma_count_concat(s, t.drop_last(), k);
        assert((s + t).drop_last() =~= s + t.drop_last());
        assert((s + t).last() == t.last());
    }
}

/// Ordered record of every driver-resource event.
pub struct DriverLog {
    pub events: Vec<DriverEvent>,
}

impl DriverLog {
    pub open spec fn instances_created(self) -> int {
        count_of(self.events@, DriverEvent::InstanceCreated)
    }

    pub open spec fn instances_destroyed(self) -> int {
        count_of(self.events@, DriverEvent::InstanceDestroyed)
    }

    pub open spec fn messengers_created(self) -> int {
        count_of(self.events@, DriverEvent::MessengerCreated)
    }

    pub open spec fn messengers_destroyed(self) -> int {
        count_of(self.events@, DriverEvent::MessengerDestroyed)
    }

    pub open spec fn devices_created(self) -> int {
        count_of(self.events@, DriverEvent::DeviceCreated)
    }

    pub open spec fn devices_destroyed(self) -> int {
        count_of(self.events@, DriverEvent::DeviceDestroyed)
    }

    /// Instances created and not yet destroyed.
    pub open spec fn live_instances(self) -> int {
        self.instances_created() - self.instances_destroyed()
    }

    /// Debug messengers created and not yet destroyed.
    pub open spec fn live_messengers(self) -> int {
        self.messengers_created() - self.messengers_destroyed()
    }

    /// Logical devices created and not yet destroyed.
    pub open spec fn live_devices(self) -> int {
        self.devices_created() - self.devices_destroyed()
    }

    /// Every handle ever created has been destroyed again.
    pub open spec fn no_live_handles(self) -> bool {
        &&& self.live_instances() == 0
        &&& self.live_messengers() == 0
        &&& self.live_devices() == 0
    }

    pub fn new() -> (r: DriverLog)
        ensures
            r.events@ == Seq::<DriverEvent>::empty(),
    {
        DriverLog { events: Vec::new() }
    }

    /// Record one event.
    pub fn record(&mut self, e: DriverEvent)
        ensures
            final(self).events@ == old(self).events@.push(e),
            forall|k: DriverEvent|
                #[trigger] count_of(final(self).events@, k) == count_of(old(self).events@, k)
                    + if k == e {
                    1int
                } else {
                    0int
                },
    {
        proof {
            broadcast use lemma_count_push;

        }
        self.events.push(e);
    }
}

} // verus!
