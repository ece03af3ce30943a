//! The subscription table: at most one live closure per message identifier.
//!
//! Each entry pairs a host-assigned message identifier with the type-erased
//! closure registered for it. The table is the single owner of every stored
//! closure; the unverified shell hands the closure's stable heap address to
//! the host as the opaque context of the subscription, and takes every entry
//! back from `unregister_all` at unload so it can unsubscribe at the host
//! and free each allocation exactly once.

use vstd::prelude::*;

use crate::errors::BridgeError;

verus! {

/// One live subscription: a message identifier and the closure that handles
/// events delivered for it.
pub struct Subscription<C> {
    /// The host-assigned message identifier.
    pub id: u32,
    /// The owned, type-erased closure registered for `id`.
    pub closure: C,
}

/// The mathematical reading of a table: the closure stored for `id`, found
/// at the first entry whose identifier matches, or nothing.
pub open spec fn seq_lookup<C>(s: Seq<(u32, C)>, id: u32) -> Option<C>
    decreases s.len(),
{
    if s.len() == 0 {
        None
    } else if s[0].0 == id {
        Some(s[0].1)
    } else {
        seq_lookup(s.drop_first(), id)
    }
}

/// No two entries carry the same message identifier.
pub open spec fn unique_ids<C>(s: Seq<(u32, C)>) -> bool {
    forall|i: int, j: int|
        0 <= i < j < s.len() ==> (#[trigger] s[i]).0 != (#[trigger] s[j]).0
}

/// A lookup finds nothing exactly when no entry carries the identifier.
pub proof fn lemma_lookup_none_iff<C>(s: Seq<(u32, C)>, id: u32)
    ensures
        (seq_lookup(s, id) is None) <==> (forall|i: int|
            0 <= i < s.len() ==> (#[trigger] s[i]).0 != id),
    decreases s.len(),
{
    if s.len() > 0 {
        lemma_lookup_none_iff(s.drop_first(), id);
        assert(forall|i: int|
            0 < i < s.len() ==> #[trigger] s[i] == s.drop_first()[i - 1]);
    }
}

/// Skipping a prefix in which no entry matches does not change the lookup.
pub proof fn lemma_lookup_skip_prefix<C>(s: Seq<(u32, C)>, id: u32, i: int)
    requires
        0 <= i <= s.len(),
        forall|j: int| 0 <= j < i ==> (#[trigger] s[j]).0 != id,
    ensures
        seq_lookup(s, id) == seq_lookup(s.skip(i), id),
    decreases i,
{
    if i == 0 {
        assert(s.skip(0) =~= s);
    } else {
        lemma_lookup_skip_prefix(s, id, i - 1);
        assert(s.skip(i - 1).len() == s.len() - (i - 1));
        assert(s.skip(i - 1)[0] == s[i - 1]);
        assert(s[i - 1].0 != id);
        assert(s.skip(i - 1).drop_first() =~= s.skip(i));
        assert(seq_lookup(s.skip(i - 1), id) == seq_lookup(s.skip(i), id));
    }
}

/// One step of the uniqueness invariant: registering an identifier that has
/// no live entry keeps the identifiers unique, so the table never holds two
/// entries for the same message identifier.
pub proof fn lemma_register_preserves_uniqueness<C>(s: Seq<(u32, C)>, id: u32, closure: C)
    requires
        unique_ids(s),
        seq_lookup(s, id) is None,
    ensures
        unique_ids(s.push((id, closure))),
{
    lemma_lookup_none_iff(s, id);
}

/// The round trip behind every event delivery: after registering a closure
/// for an identifier that had none, a dispatch for that identifier finds
/// exactly the closure just registered.
pub proof fn lemma_register_then_dispatch<C>(s: Seq<(u32, C)>, id: u32, closure: C)
    requires
        seq_lookup(s, id) is None,
    ensures
        seq_lookup(s.push((id, closure)), id) == Some(closure),
{
    let pushed = s.push((id, closure));
    lemma_lookup_none_iff(s, id);
    assert(forall|j: int| 0 <= j < s.len() ==> (#[trigger] pushed[j]).0 != id);
    lemma_lookup_skip_prefix(pushed, id, s.len() as int);
    assert(pushed.skip(s.len() as int)[0] == (id, closure));
}

/// After every subscription is unregistered the table is empty, so a
/// dispatch for any identifier, registered before or not, finds no closure
/// and is a no-op.
pub proof fn lemma_dispatch_after_unregister_all<C>(id: u32)
    ensures
        seq_lookup(Seq::<(u32, C)>::empty(), id) is None,
{
}

/// The mapping from message identifiers to the closures live for them.
pub struct SubscriptionTable<C> {
    entries: Vec<Subscription<C>>,
}

impl<C> View for SubscriptionTable<C> {
    type V = Seq<(u32, C)>;

    closed spec fn view(&self) -> Seq<(u32, C)> {
        Seq::new(self.entries@.len(), |i: int| (self.entries@[i].id, self.entries@[i].closure))
    }
}

impl<C> SubscriptionTable<C> {
    /// The table's invariant: at most one entry per message identifier.
    pub open spec fn wf(&self) -> bool {
        unique_ids(self@)
    }

    /// An empty table.
    pub fn new() -> (r: Self)
        ensures
            r@ == Seq::<(u32, C)>::empty(),
            r.wf(),
    {
        let r = SubscriptionTable { entries: Vec::new() };
        proof {
            assert(r@ =~= Seq::<(u32, C)>::empty());
        }
        r
    }

    /// How many subscriptions are live.
    pub fn len(&self) -> (r: usize)
        ensures
            r == self@.len(),
    {
        self.entries.len()
    }

    /// Whether a closure is live for `id`.
    pub fn contains(&self, id: u32) -> (r: bool)
        ensures
            r == (seq_lookup(self@, id) is Some),
    {
        let n = self.entries.len();
        let mut i: usize = 0;
        while i < n
            invariant
                0 <= i <= n,
                n == self@.len(),
                self@.len() == self.entries@.len(),
                forall|j: int| 0 <= j < i ==> (#[trigger] self@[j]).0 != id,
            decreases n - i,
        {
            if self.entries[i].id == id {
                proof {
                    lemma_lookup_skip_prefix(self@, id, i as int);
                    assert(self@.skip(i as int)[0] == self@[i as int]);
                }
                return true;
            }
            i = i + 1;
        }
        proof {
            lemma_lookup_skip_prefix(self@, id, self@.len() as int);
        }
        false
    }

    /// Registers `closure` as the handler for `id`. Fails with
    /// `DuplicateSubscription`, leaving the table untouched, exactly when a
    /// closure is already live for `id`; on success the new entry is
    /// appended and owns the closure.
    pub fn register(&mut self, id: u32, closure: C) -> (r: Result<(), BridgeError>)
        requires
            old(self).wf(),
        ensures
            final(self).wf(),
            match r {
                Ok(()) => (seq_lookup(old(self)@, id) is None) && final(self)@ == old(self)@.push(
                    (id, closure),
                ),
                Err(e) => e == BridgeError::DuplicateSubscription && (seq_lookup(old(self)@, id)
                    is Some) && final(self)@ == old(self)@,
            },
    {
        if self.contains(id) {
            return Err(BridgeError::DuplicateSubscription);
        }
        let ghost pre = self@;
        self.entries.push(Subscription { id, closure });
        proof {
            assert(self@ =~= pre.push((id, closure)));
            lemma_register_preserves_uniqueness(pre, id, closure);
        }
        Ok(())
    }

    /// Looks up the closure to invoke for a delivered event. Finding nothing
    /// is benign (an event may race an unsubscribe): the caller then does
    /// nothing.
    pub fn dispatch(&self, id: u32) -> (r: Option<&C>)
        ensures
            match r {
                Some(c) => seq_lookup(self@, id) == Some(*c),
                None => seq_lookup(self@, id) is None,
            },
    {
        let n = self.entries.len();
        let mut i: usize = 0;
        while i < n
            invariant
                0 <= i <= n,
                n == self@.len(),
                self@.len() == self.entries@.len(),
                forall|j: int| 0 <= j < i ==> (#[trigger] self@[j]).0 != id,
            decreases n - i,
        {
            if self.entries[i].id == id {
                proof {
                    lemma_lookup_skip_prefix(self@, id, i as int);
                    assert(self@.skip(i as int)[0] == self@[i as int]);
                }
                return Some(&self.entries[i].closure);
            }
            i = i + 1;
        }
        proof {
            lemma_lookup_skip_prefix(self@, id, self@.len() as int);
        }
        None
    }

    /// Takes every live subscription out of the table, in registration
    /// order, and leaves it empty. The caller unsubscribes each returned
    /// entry at the host and then releases it, exactly once. Idempotent on
    /// an empty table: it returns nothing.
    pub fn unregister_all(&mut self) -> (r: Vec<Subscription<C>>)
        ensures
            final(self)@ == Seq::<(u32, C)>::empty(),
            final(self).wf(),
            r@.len() == old(self)@.len(),
            forall|i: int|
                0 <= i < r@.len() ==> ((#[trigger] r@[i]).id, r@[i].closure) == old(self)@[i],
    {
        let mut out: Vec<Subscription<C>> = Vec::new();
        std::mem::swap(&mut self.entries, &mut out);
        proof {
            assert(self@ =~= Seq::<(u32, C)>::empty());
        }
        out
    }
}

} // verus!
