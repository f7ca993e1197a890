//! Registry of currently connected clients.
//!
//! The registry maps a transport-assigned client id to the timestamp it
//! connected at. Registering an id that is already present overwrites its
//! entry (last writer wins, never a duplicate); unregistering an absent id
//! is a no-op. Neither operation can fail. The embedding server guards a
//! shared registry with its own mutual-exclusion discipline; the registry
//! itself is a plain value.
use vstd::prelude::*;

verus! {

broadcast use vstd::set::group_set_axioms;

/// No two entries share a client id.
spec fn distinct_ids(s: Seq<(String, u64)>) -> bool {
    forall|i: int, j: int| 0 <= i < j < s.len() ==> s[i].0@ != s[j].0@
}

/// The mapping an entry list stands for, last writer winning.
spec fn map_of(s: Seq<(String, u64)>) -> Map<Seq<char>, u64>
    decreases s.len(),
{
    if s.len() == 0 {
        Map::empty()
    } else {
        map_of(s.drop_last()).insert(s.last().0@, s.last().1)
    }
}

proof fn lemma_map_of_contains(s: Seq<(String, u64)>, k: Seq<char>)
    ensures
        map_of(s).contains_key(k) <==> exists|i: int| 0 <= i < s.len() && s[i].0@ == k,
    decreases s.len(),
{
    if s.len() > 0 {
        lemma_map_of_contains(s.drop_last(), k);
        if s.last().0@ == k {
            assert(s[s.len() - 1].0@ == k);
        } else {
            if map_of(s).contains_key(k) {
                let i = choose|i: int| 0 <= i < s.drop_last().len() && s.drop_last()[i].0@ == k;
                assert(s[i].0@ == k);
            }
            if exists|i: int| 0 <= i < s.len() && s[i].0@ == k {
                let i = choose|i: int| 0 <= i < s.len() && s[i].0@ == k;
                assert(s.drop_last()[i].0@ == k);
            }
        }
    }
}

proof fn lemma_map_of_len(s: Seq<(String, u64)>)
    requires
        distinct_ids(s),
    ensures
        map_of(s).dom().finite(),
        map_of(s).dom().len() == s.len(),
    decreases s.len(),
{
    if s.len() == 0 {
        assert(map_of(s).dom() =~= Set::<Seq<char>>::empty());
    } else {
        let t = s.drop_last();
        lemma_map_of_len(t);
        lemma_map_of_contains(t, s.last().0@);
        assert(forall|i: int| 0 <= i < t.len() ==> t[i].0@ != s.last().0@);
        assert(map_of(s).dom() =~= map_of(t).dom().insert(s.last().0@));
    }
}

proof fn lemma_map_of_remove(s: Seq<(String, u64)>, i: int)
    requires
        distinct_ids(s),
        0 <= i < s.len(),
    ensures
        map_of(s.remove(i)) == map_of(s).remove(s[i].0@),
    decreases s.len(),
{
    if i == s.len() - 1 {
        assert(s.remove(i) =~= s.drop_last());
        lemma_map_of_contains(s.drop_last(), s[i].0@);
        assert(map_of(s).remove(s[i].0@) =~= map_of(s.drop_last()));
    } else {
        let t = s.drop_last();
        lemma_map_of_remove(t, i);
        assert(s.remove(i).drop_last() =~= t.remove(i));
        assert(s.remove(i).last() == s.last());
        assert(map_of(s.remove(i)) == map_of(t.remove(i)).insert(s.last().0@, s.last().1));
        assert(s[i].0@ != s.last().0@);
        assert(map_of(t).remove(s[i].0@).insert(s.last().0@, s.last().1) =~= map_of(t).insert(
            s.last().0@,
            s.last().1,
        ).remove(s[i].0@));
    }
}

/// Store of currently connected clients and their connect timestamps.
pub struct ConnectionRegistry {
    entries: Vec<(String, u64)>,
}

impl View for ConnectionRegistry {
    type V = Map<Seq<char>, u64>;

    closed spec fn view(&self) -> Map<Seq<char>, u64> {
        map_of(self.entries@)
    }
}

impl ConnectionRegistry {
    /// The registry keeps at most one entry per client id.
    pub closed spec fn wf(self) -> bool {
        distinct_ids(self.entries@)
    }

    /// An empty registry.
    pub fn new() -> (r: ConnectionRegistry)
        ensures
            r.wf(),
            r@ == Map::<Seq<char>, u64>::empty(),
    {
        ConnectionRegistry { entries: Vec::new() }
    }

    /// Removes the client's entry; a no-op if the id is absent, never an
    /// error.
    pub fn unregister(&mut self, id: &String)
        requires
            old(self).wf(),
        ensures
            final(self).wf(),
            final(self)@ == old(self)@.remove(id@),
    {
        let ghost s = self.entries@;
        let n = self.entries.len();
        let mut i: usize = 0;
        while i < n
            invariant
                i <= n,
                n == s.len(),
                self.entries@ == s,
                distinct_ids(s),
                map_of(s) == old(self)@,
                forall|j: int| 0 <= j < i ==> s[j].0@ != id@,
            decreases n - i,
        {
            if self.entries[i].0 == *id {
                proof {
                    lemma_map_of_remove(s, i as int);
                }
                self.entries.remove(i);
                proof {
                    assert(distinct_ids(s.remove(i as int)));
                }
                return ;
            }
            i += 1;
        }
        proof {
            lemma_map_of_contains(s, id@);
            assert(map_of(s).remove(id@) =~= map_of(s));
        }
    }

    /// Inserts the client id with its connect timestamp, overwriting any
    /// entry the id already has; never an error.
    pub fn register(&mut self, id: String, connected_at: u64)
        requires
            old(self).wf(),
        ensures
            final(self).wf(),
            final(self)@ == old(self)@.insert(id@, connected_at),
    {
        self.unregister(&id);
        proof {
            lemma_map_of_contains(self.entries@, id@);
        }
        let ghost t = self.entries@;
        self.entries.push((id, connected_at));
        proof {
            assert(self.entries@.drop_last() =~= t);
            assert(old(self)@.remove(id@).insert(id@, connected_at) =~= old(self)@.insert(
                id@,
                connected_at,
            ));
        }
    }

    /// How many clients are currently registered.
    pub fn count(&self) -> (n: usize)
        requires
            self.wf(),
        ensures
            n == self@.dom().len(),
    {
        proof {
            lemma_map_of_len(self.entries@);
        }
        self.entries.len()
    }
}

/// A transport lifecycle notification.
pub enum LifecycleEvent {
    /// The transport opened a session for the client at the given time.
    Connected { id: String, connected_at: u64 },
    /// The transport closed the client's session.
    Disconnected { id: String },
}

/// Applies one transport lifecycle notification to the registry: a
/// connect registers the client, a disconnect unregisters it. The
/// embedding server schedules these as independent units of work so the
/// transport's own event path never blocks on the registry.
pub fn apply_lifecycle_event(registry: &mut ConnectionRegistry, event: LifecycleEvent)
    requires
        old(registry).wf(),
    ensures
        final(registry).wf(),
        event matches LifecycleEvent::Connected { id, connected_at } ==> final(registry)@
            == old(registry)@.insert(id@, connected_at),
        event matches LifecycleEvent::Disconnected { id } ==> final(registry)@ == old(
            registry,
        )@.remove(id@),
{
    match event {
        LifecycleEvent::Connected { id, connected_at } => registry.register(id, connected_at),
        LifecycleEvent::Disconnected { id } => registry.unregister(&id),
    }
}

/// Registering an id that is not yet present and then unregistering it
/// returns the registry's mapping — and with it `count` — to its prior
/// value.
pub proof fn lemma_register_then_unregister(m: Map<Seq<char>, u64>, id: Seq<char>, at: u64)
    requires
        !m.dom().contains(id),
    ensures
        m.insert(id, at).remove(id) == m,
{
    assert(m.insert(id, at).remove(id) =~= m);
}

/// Registering the same id again keeps a single entry: the later
/// registration overwrites the earlier one, and the set of registered ids
/// — and with it `count` — is that of a single registration.
pub proof fn lemma_register_idempotent(m: Map<Seq<char>, u64>, id: Seq<char>, at1: u64, at2: u64)
    ensures
        m.insert(id, at1).insert(id, at2) == m.insert(id, at2),
        m.insert(id, at1).dom() == m.insert(id, at2).dom(),
{
    assert(m.insert(id, at1).insert(id, at2) =~= m.insert(id, at2));
    assert(m.insert(id, at1).dom() =~= m.insert(id, at2).dom());
}

} // verus!
