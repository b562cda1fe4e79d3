//! The connection registry: which sink currently answers for which channel
//! key, what has been handed to each sink's queue through it, and what those
//! queues took.

use vstd::prelude::*;
use crate::channel::ChannelKey;
use crate::channel::ChannelName;
use crate::channel::Sink;
use crate::frame::Frame;
use crate::frame::FrameView;
use crate::store::KeyedStore;

verus! {

/// The registry as a mathematical value.
///
/// `sinks` maps each registered key to its sink. `offered` maps a sink's
/// token to the frames that the registry has handed to the queue of sinks
/// with that token, oldest first, whether the queue took them or not.
/// `delivered` maps the token to those of them that the queue took. A token
/// that is not in a map has been handed nothing, or has taken nothing.
pub struct RegistryView {
    pub sinks: Map<ChannelName, Sink>,
    pub offered: Map<u64, Seq<FrameView>>,
    pub delivered: Map<u64, Seq<FrameView>>,
}

impl RegistryView {
    /// The registry with no entry, no offer and no delivery.
    pub open spec fn empty() -> RegistryView {
        RegistryView { sinks: Map::empty(), offered: Map::empty(), delivered: Map::empty() }
    }

    /// The sink registered under `key`, if any.
    pub open spec fn lookup(self, key: ChannelName) -> Option<Sink> {
        if self.sinks.contains_key(key) {
            Some(self.sinks[key])
        } else {
            None
        }
    }

    /// The frames handed so far to the queue of sinks with token `id`,
    /// oldest first, taken or not.
    pub open spec fn offers(self, id: u64) -> Seq<FrameView> {
        if self.offered.contains_key(id) {
            self.offered[id]
        } else {
            Seq::empty()
        }
    }

    /// The frames that the queue of sinks with token `id` has taken so far,
    /// oldest first.
    pub open spec fn log(self, id: u64) -> Seq<FrameView> {
        if self.delivered.contains_key(id) {
            self.delivered[id]
        } else {
            Seq::empty()
        }
    }

    /// The registry after `sink` has been registered under `key`.
    pub open spec fn register(self, key: ChannelName, sink: Sink) -> RegistryView {
        RegistryView {
            sinks: self.sinks.insert(key, sink),
            offered: self.offered,
            delivered: self.delivered,
        }
    }

    /// The registry after the entry for `key` has been removed.
    pub open spec fn unregister(self, key: ChannelName) -> RegistryView {
        RegistryView {
            sinks: self.sinks.remove(key),
            offered: self.offered,
            delivered: self.delivered,
        }
    }

    /// Whether the entry for `key` belongs to the session with token `id`.
    pub open spec fn owned_by(self, key: ChannelName, id: u64) -> bool {
        self.sinks.contains_key(key) && self.sinks[key].id() == id
    }

    /// The registry after the session with token `id` has given up `key`:
    /// the entry goes only if it is still that session's.
    pub open spec fn release(self, key: ChannelName, id: u64) -> RegistryView {
        if self.owned_by(key, id) {
            self.unregister(key)
        } else {
            self
        }
    }

    /// The registry after `frame` has been handed to the queue of the sink
    /// with token `id`, where `accepted` says whether the queue took it. The
    /// frame is noted as offered either way, and as delivered if it was
    /// taken.
    pub open spec fn hand(self, id: u64, frame: FrameView, accepted: bool) -> RegistryView {
        RegistryView {
            sinks: self.sinks,
            offered: self.offered.insert(id, self.offers(id).push(frame)),
            delivered: if accepted {
                self.delivered.insert(id, self.log(id).push(frame))
            } else {
                self.delivered
            },
        }
    }

    /// The registry after `frame` has been sent to `key`, where `accepted`
    /// says whether the queue of the sink found there took it. With no sink
    /// under `key` nothing is handed to any queue, and nothing changes.
    pub open spec fn deliver(self, key: ChannelName, frame: FrameView, accepted: bool) -> RegistryView {
        if self.sinks.contains_key(key) {
            self.hand(self.sinks[key].id(), frame, accepted)
        } else {
            self
        }
    }
}

/// The process-wide table of live connections.
pub struct Registry {
    users: KeyedStore<Sink>,
    calls: KeyedStore<Sink>,
    offered: Ghost<Map<u64, Seq<FrameView>>>,
    delivered: Ghost<Map<u64, Seq<FrameView>>>,
}

impl View for Registry {
    type V = RegistryView;

    closed spec fn view(&self) -> RegistryView {
        RegistryView {
            sinks: Map::new(
                |key: ChannelName|
                    match key {
                        ChannelName::User(identity) => self.users@.contains_key(identity),
                        ChannelName::Call(call_id) => self.calls@.contains_key(call_id),
                    },
                |key: ChannelName|
                    match key {
                        ChannelName::User(identity) => self.users@[identity],
                        ChannelName::Call(call_id) => self.calls@[call_id],
                    },
            ),
            offered: self.offered@,
            delivered: self.delivered@,
        }
    }
}

impl Registry {
    /// A registry with no entry, through which nothing has been sent.
    pub fn new() -> (registry: Registry)
        ensures
            registry@ == RegistryView::empty(),
    {
        let registry = Registry {
            users: KeyedStore::new(),
            calls: KeyedStore::new(),
            offered: Ghost(Map::empty()),
            delivered: Ghost(Map::empty()),
        };
        assert(registry@.sinks =~= Map::<ChannelName, Sink>::empty());
        registry
    }

    /// Registers `sink` under `key`. A sink that was registered under the
    /// same key before is superseded: it leaves the registry and is returned
    /// to the caller, still open.
    pub fn register(&mut self, key: ChannelKey, sink: Sink) -> (superseded: Option<Sink>)
        ensures
            final(self)@ == old(self)@.register(key@, sink),
            superseded == old(self)@.lookup(key@),
    {
        let ghost before = self@;
        let superseded = match key {
            ChannelKey::User(identity) => self.users.insert(identity, sink),
            ChannelKey::Call(call_id) => self.calls.insert(call_id, sink),
        };
        assert(self@.sinks =~= before.sinks.insert(key@, sink));
        superseded
    }

    /// Removes the entry for `key`, if there is one, and returns its sink.
    pub fn unregister(&mut self, key: &ChannelKey) -> (removed: Option<Sink>)
        ensures
            final(self)@ == old(self)@.unregister(key@),
            removed == old(self)@.lookup(key@),
    {
        let ghost before = self@;
        let removed = match key {
            ChannelKey::User(identity) => self.users.remove(identity),
            ChannelKey::Call(call_id) => self.calls.remove(call_id),
        };
        assert(self@.sinks =~= before.sinks.remove(key@));
        removed
    }

    /// The sink registered under `key`, if any.
    pub fn lookup(&self, key: &ChannelKey) -> (found: Option<&Sink>)
        ensures
            match found {
                Some(sink) => self@.lookup(key@) == Some(*sink),
                None => self@.lookup(key@).is_none(),
            },
    {
        match key {
            ChannelKey::User(identity) => self.users.get(identity),
            ChannelKey::Call(call_id) => self.calls.get(call_id),
        }
    }

    /// Removes the entry for `key` if it is still the one of the session
    /// with token `id`, and says whether it did. An entry that another
    /// session has registered since stays.
    pub fn release(&mut self, key: &ChannelKey, id: u64) -> (released: bool)
        ensures
            released == old(self)@.owned_by(key@, id),
            final(self)@ == old(self)@.release(key@, id),
    {
        let owned = match self.lookup(key) {
            Some(sink) => sink.id() == id,
            None => false,
        };
        if owned {
            let _ = self.unregister(key);
        }
        owned
    }

    /// Sends `frame` to the sink registered under `key` and says whether a
    /// live sink took it. With no entry for `key` nothing is handed to any
    /// queue and the answer is `false`. With an entry, the frame is handed to
    /// that sink's queue and to no other, and the answer is the queue's: it
    /// takes the frame unless its draining end is closed or gone.
    pub fn send(&mut self, key: &ChannelKey, frame: Frame) -> (delivered: bool)
        ensures
            delivered ==> old(self)@.sinks.contains_key(key@),
            final(self)@ == old(self)@.deliver(key@, frame@, delivered),
    {
        let ghost content = frame@;
        let offered = match self.lookup(key) {
            Some(sink) => Some((sink.id(), sink.offer(frame))),
            None => None,
        };
        match offered {
            Some((id, answer)) => self.settle(id, Ghost(content), answer),
            None => false,
        }
    }

    /// Notes that `frame` was handed to the queue of the sink with token
    /// `id`, and what the queue answered: the frame is offered either way,
    /// and delivered if the queue took it. The result says whether it did.
    fn settle(&mut self, id: u64, frame: Ghost<FrameView>, answer: Result<(), Frame>) -> (delivered:
        bool)
        ensures
            delivered == answer.is_ok(),
            final(self)@ == old(self)@.hand(id, frame@, delivered),
    {
        let ghost before = self@;
        let delivered = answer.is_ok();
        proof {
            self.offered@ = before.offered.insert(id, before.offers(id).push(frame@));
            if delivered {
                self.delivered@ = before.delivered.insert(id, before.log(id).push(frame@));
            }
        }
        assert(self@.sinks =~= before.sinks);
        delivered
    }
}

/// Uniqueness: a key has at most one sink. Registering a second sink under a
/// key supersedes the first, so that a lookup finds the second, and the
/// registry is the one it would be had the first never been registered.
pub proof fn register_supersedes(
    registry: RegistryView,
    key: ChannelName,
    first: Sink,
    second: Sink,
)
    ensures
        registry.register(key, first).register(key, second).lookup(key) == Some(second),
        registry.register(key, first).register(key, second) == registry.register(key, second),
{
    assert(registry.sinks.insert(key, first).insert(key, second) =~= registry.sinks.insert(
        key,
        second,
    ));
}

/// Clean removal: after a sink has been registered under a key and the key
/// unregistered, a lookup of the key finds nothing.
pub proof fn unregister_removes(registry: RegistryView, key: ChannelName, sink: Sink)
    ensures
        registry.register(key, sink).unregister(key).lookup(key).is_none(),
{
}

/// Idempotent unregister: unregistering a key a second time changes
/// nothing, and unregistering a key that is absent changes nothing.
pub proof fn unregister_idempotent(registry: RegistryView, key: ChannelName)
    ensures
        registry.unregister(key).unregister(key) == registry.unregister(key),
        !registry.sinks.contains_key(key) ==> registry.unregister(key) == registry,
{
    assert(registry.sinks.remove(key).remove(key) =~= registry.sinks.remove(key));
    if !registry.sinks.contains_key(key) {
        assert(registry.sinks.remove(key) =~= registry.sinks);
    }
}

/// A session that has been superseded does not evict its successor: giving
/// up a key that another session holds by now changes nothing.
pub proof fn release_spares_successor(
    registry: RegistryView,
    key: ChannelName,
    first: Sink,
    second: Sink,
)
    requires
        first.id() != second.id(),
    ensures
        registry.register(key, first).register(key, second).release(key, first.id())
            == registry.register(key, second),
{
    register_supersedes(registry, key, first, second);
}

/// First in, first out: three frames that a sink took, sent to one key in
/// turn, stand at the end of that sink's log in the order in which they were
/// sent, and no other sink was handed anything.
pub proof fn deliveries_keep_order(
    registry: RegistryView,
    key: ChannelName,
    f1: FrameView,
    f2: FrameView,
    f3: FrameView,
)
    requires
        registry.sinks.contains_key(key),
    ensures
        ({
            let id = registry.sinks[key].id();
            let after = registry.deliver(key, f1, true).deliver(key, f2, true).deliver(
                key,
                f3,
                true,
            );
            &&& after.sinks == registry.sinks
            &&& after.log(id) == registry.log(id) + seq![f1, f2, f3]
            &&& after.offers(id) == registry.offers(id) + seq![f1, f2, f3]
            &&& forall|other: u64|
                other != id ==> after.log(other) == registry.log(other) && after.offers(other)
                    == registry.offers(other)
        }),
{
    let id = registry.sinks[key].id();
    let after = registry.deliver(key, f1, true).deliver(key, f2, true).deliver(key, f3, true);
    assert(after.log(id) =~= registry.log(id) + seq![f1, f2, f3]);
    assert(after.offers(id) =~= registry.offers(id) + seq![f1, f2, f3]);
}

/// A frame that a queue refused is on no log of deliveries: the sink found
/// under the key was handed the frame, every log of what was taken stays as
/// it was, and no other sink was handed anything.
pub proof fn refused_frame_is_not_delivered(registry: RegistryView, key: ChannelName, frame: FrameView)
    requires
        registry.sinks.contains_key(key),
    ensures
        ({
            let id = registry.sinks[key].id();
            let after = registry.deliver(key, frame, false);
            &&& after.sinks == registry.sinks
            &&& after.delivered == registry.delivered
            &&& after.offers(id) == registry.offers(id).push(frame)
            &&& forall|other: u64| other != id ==> after.offers(other) == registry.offers(other)
        }),
{
}

} // verus!
