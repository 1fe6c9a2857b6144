//! The event bus: a slot-reuse registry of listeners, broadcast by snapshot.
//!
//! A listener is identified here by a plain `u64` callback id; the surrounding
//! runtime maps each id to the asynchronous callback it stands for and drives
//! the callbacks returned by a broadcast snapshot to completion.

use vstd::prelude::*;

verus! {

/// An immutable fact that already happened, broadcast to listeners.
///
/// The identifier and value payloads are carried through opaquely; the bus
/// never inspects them.
#[derive(Debug, Clone, PartialEq)]
pub enum Event {
    ControllerPaired { id: uuid::Uuid },
    ControllerUnpaired { id: uuid::Uuid },
    CharacteristicValueChanged { aid: u64, iid: u64, value: serde_json::Value },
}

#[verifier::external_type_specification]
#[verifier::external_body]
pub struct ExUuid(uuid::Uuid);

#[verifier::external_type_specification]
#[verifier::external_body]
pub struct ExJsonValue(serde_json::Value);

#[verifier::external_type_specification]
#[verifier::external_body]
#[verifier::reject_recursive_types(T)]
pub struct ExSlab<T>(slab::Slab<T>);

/// Relies on uuid::Uuid::clone, a derived copy of a plain-data identifier.
pub assume_specification[ <uuid::Uuid as Clone>::clone ](v: &uuid::Uuid) -> (r: uuid::Uuid)
    ensures
        r == *v,
;

/// Relies on serde_json::Value::clone, a derived deep copy; nothing is
/// claimed of the copy.
pub assume_specification[ <serde_json::Value as Clone>::clone ](v: &serde_json::Value) -> (r:
    serde_json::Value)
;

/// The empty listener registry.
pub open spec fn empty_registry() -> Map<usize, u64> {
    Map::empty()
}

/// The occupied entries of a slab, as a map from slot key to stored value.
pub uninterp spec fn slab_entries(s: slab::Slab<u64>) -> Map<usize, u64>;

/// Relies on slab::Slab::new: a freshly created slab holds no entries.
#[verifier::external_body]
fn slab_new() -> (s: slab::Slab<u64>)
    ensures
        slab_entries(s) == empty_registry(),
{
    slab::Slab::new()
}

/// Relies on slab::Slab::insert: the value is stored at a vacant key, which
/// is returned; no other entry is disturbed.
#[verifier::external_body]
fn slab_insert(s: &mut slab::Slab<u64>, v: u64) -> (k: usize)
    ensures
        !slab_entries(*old(s)).contains_key(k),
        slab_entries(*final(s)) == slab_entries(*old(s)).insert(k, v),
{
    s.insert(v)
}

/// Relies on slab::Slab::try_remove: if the key is occupied its value is
/// removed and returned, releasing the key for reuse; a vacant key leaves the
/// slab unchanged and yields nothing.
#[verifier::external_body]
fn slab_try_remove(s: &mut slab::Slab<u64>, k: usize) -> (r: Option<u64>)
    ensures
        slab_entries(*final(s)) == slab_entries(*old(s)).remove(k),
        r == if slab_entries(*old(s)).contains_key(k) {
            Some(slab_entries(*old(s))[k])
        } else {
            None::<u64>
        },
{
    s.try_remove(k)
}

/// A sequence of key/value pairs drawn exactly once each from the entries of
/// a registry map, with pairwise distinct keys.
pub open spec fn is_snapshot_of(s: Seq<(usize, u64)>, m: Map<usize, u64>) -> bool {
    &&& s.len() == m.len()
    &&& forall|i: int| 0 <= i < s.len() ==> m.contains_pair((#[trigger] s[i]).0, s[i].1)
    &&& forall|k: usize|
        #[trigger] m.contains_key(k) ==> exists|i: int|
            0 <= i < s.len() && (#[trigger] s[i]) == (k, m[k])
    &&& forall|i: int, j: int|
        0 <= i < j < s.len() ==> (#[trigger] s[i]).0 != (#[trigger] s[j]).0
}

/// Relies on slab::Slab::iter: it yields each occupied entry exactly once as
/// a pair of its key and value, in ascending key order, and yields exactly
/// `len` pairs.
#[verifier::external_body]
fn slab_snapshot(s: &slab::Slab<u64>) -> (r: Vec<(usize, u64)>)
    ensures
        is_snapshot_of(r@, slab_entries(*s)),
{
    s.iter().map(|(k, v)| (k, *v)).collect()
}

/// The bus: a registry of listeners keyed by dense, reusable integer tokens.
///
/// A token is valid only between the `add_listener` call that issued it and
/// the matching removal; after removal the slot may be reissued.
pub struct EventEmitter {
    listeners: slab::Slab<u64>,
}

impl EventEmitter {
    /// The current registry: a map from live token to the listener id it names.
    pub closed spec fn entries(&self) -> Map<usize, u64> {
        slab_entries(self.listeners)
    }

    pub fn new() -> (r: EventEmitter)
        ensures
            r.entries() == empty_registry(),
    {
        EventEmitter { listeners: slab_new() }
    }

    /// Registers a listener and returns its token, fresh among the live ones.
    pub fn add_listener(&mut self, listener: u64) -> (token: usize)
        ensures
            !old(self).entries().contains_key(token),
            final(self).entries() == old(self).entries().insert(token, listener),
    {
        slab_insert(&mut self.listeners, listener)
    }

    /// Removes the registration a token names, if it is live; never disturbs
    /// any other entry.
    pub fn remove(&mut self, token: usize) -> (removed: Option<u64>)
        ensures
            final(self).entries() == old(self).entries().remove(token),
            removed == if old(self).entries().contains_key(token) {
                Some(old(self).entries()[token])
            } else {
                None::<u64>
            },
    {
        slab_try_remove(&mut self.listeners, token)
    }

    /// Takes the broadcast snapshot for one emission: every listener
    /// registered at this moment appears in it exactly once, and nothing
    /// else does. The runtime invokes each snapshotted listener with the
    /// event and resolves the broadcast once all of them have resolved.
    pub fn emit(&self, _event: &Event) -> (snapshot: Vec<(usize, u64)>)
        ensures
            is_snapshot_of(snapshot@, self.entries()),
    {
        slab_snapshot(&self.listeners)
    }
}

impl Default for EventEmitter {
    fn default() -> (r: EventEmitter)
        ensures
            r.entries() == empty_registry(),
    {
        EventEmitter::new()
    }
}

/// A scoped subscription handle: it owns one token of the bus that issued it
/// and removes that token on release, exactly once, never earlier.
pub struct EventListenerGuard {
    token: usize,
    released: bool,
}

impl EventListenerGuard {
    /// The token this guard owns.
    pub closed spec fn token_spec(&self) -> usize {
        self.token
    }

    /// Whether the guard has already performed its removal.
    pub closed spec fn is_released(&self) -> bool {
        self.released
    }

    pub fn new(token: usize) -> (g: EventListenerGuard)
        ensures
            g.token_spec() == token,
            !g.is_released(),
    {
        EventListenerGuard { token, released: false }
    }

    /// Releases the subscription: the first call removes the guard's token
    /// from the registry; every later call leaves the registry untouched.
    pub fn release(&mut self, emitter: &mut EventEmitter)
        ensures
            final(self).is_released(),
            final(self).token_spec() == old(self).token_spec(),
            old(self).is_released() ==> final(emitter).entries() == old(emitter).entries(),
            !old(self).is_released() ==> final(emitter).entries() == old(emitter).entries().remove(
                old(self).token_spec(),
            ),
    {
        if !self.released {
            let _ = emitter.remove(self.token);
            self.released = true;
        }
    }
}

/// Late subscriber exclusion: a listener registered after an emission took
/// its snapshot was issued a token the snapshotted registry did not hold, so
/// no invocation of that emission belongs to it.
pub proof fn lemma_late_subscriber_excluded(
    snapshot: Seq<(usize, u64)>,
    m: Map<usize, u64>,
    token: usize,
)
    requires
        is_snapshot_of(snapshot, m),
        !m.contains_key(token),
    ensures
        forall|i: int| 0 <= i < snapshot.len() ==> (#[trigger] snapshot[i]).0 != token,
{
    assert forall|i: int| 0 <= i < snapshot.len() implies (#[trigger] snapshot[i]).0 != token by {
        assert(m.contains_pair(snapshot[i].0, snapshot[i].1));
    }
}

/// Token reuse safety: after the registration at `token` (the sole one
/// carrying listener `id1`) is removed and the slot table issues `token2` to
/// a new listener `id2`, a broadcast snapshot taken then invokes the new
/// listener and never the stale one.
pub proof fn lemma_token_reuse(
    m: Map<usize, u64>,
    token: usize,
    token2: usize,
    id1: u64,
    id2: u64,
    snapshot: Seq<(usize, u64)>,
)
    requires
        m.contains_key(token) && m[token] == id1,
        forall|k: usize| #[trigger] m.contains_key(k) && k != token ==> m[k] != id1,
        !m.remove(token).contains_key(token2),
        is_snapshot_of(snapshot, m.remove(token).insert(token2, id2)),
        id1 != id2,
    ensures
        exists|i: int| 0 <= i < snapshot.len() && (#[trigger] snapshot[i]) == (token2, id2),
        forall|i: int| 0 <= i < snapshot.len() ==> (#[trigger] snapshot[i]).1 != id1,
{
    let m2 = m.remove(token).insert(token2, id2);
    assert(m2.contains_key(token2) && m2[token2] == id2);
    assert forall|i: int| 0 <= i < snapshot.len() implies (#[trigger] snapshot[i]).1 != id1 by {
        assert(m2.contains_pair(snapshot[i].0, snapshot[i].1));
    }
}

/// Subscribe/unsubscribe round trip: releasing the registration a fresh
/// token was issued for restores the registry that preceded it.
pub proof fn lemma_unsubscribe_restores(m: Map<usize, u64>, token: usize, listener: u64)
    requires
        !m.contains_key(token),
    ensures
        m.insert(token, listener).remove(token) == m,
{
    assert(m.insert(token, listener).remove(token) =~= m);
}

} // verus!
