//! The plugin lifecycle: one session per process, loaded and unloaded
//! exactly once each per cycle.
//!
//! A `PluginWrapper` is either unloaded (no session) or holds the one live
//! `PluginSession`: the endpoint the host assigned, the subscription table,
//! and whether the bootstrap handshake has acquired the secondary domain
//! API. The host's entry points drive it: `load`, then the handshake, then
//! any number of dispatches and registrations, then `unload`, which hands
//! every live subscription back so the shell can unsubscribe and free each
//! one exactly once. Loading while loaded and unloading while unloaded fail
//! with `LifecycleViolation` and change nothing.

use vstd::prelude::*;

use crate::errors::BridgeError;
use crate::subs::{seq_lookup, unique_ids, Subscription, SubscriptionTable};

verus! {

/// The singleton runtime state of a loaded plugin.
pub struct PluginSession<C> {
    endpoint_id: u32,
    table: SubscriptionTable<C>,
    domain_api_ready: bool,
}

/// The lifecycle state machine around the one optional session.
pub struct PluginWrapper<C> {
    session: Option<PluginSession<C>>,
}

/// Everything `PluginWrapper::load` guarantees, as a relation between the
/// wrapper before the call, the wrapper after it, and its result.
pub open spec fn load_post<C>(
    pre: PluginWrapper<C>,
    post: PluginWrapper<C>,
    endpoint_id: u32,
    r: Result<(), BridgeError>,
) -> bool {
    match r {
        Ok(()) => {
            &&& !pre.is_loaded()
            &&& post.is_loaded()
            &&& post.endpoint() == endpoint_id
            &&& post.table_view() == Seq::<(u32, C)>::empty()
            &&& !post.domain_api_ready()
        },
        Err(e) => {
            &&& e == BridgeError::LifecycleViolation
            &&& pre.is_loaded()
            &&& post == pre
        },
    }
}

/// Everything `PluginWrapper::unload` guarantees, as a relation between the
/// wrapper before the call, the wrapper after it, and its result.
pub open spec fn unload_post<C>(
    pre: PluginWrapper<C>,
    post: PluginWrapper<C>,
    r: Result<Vec<Subscription<C>>, BridgeError>,
) -> bool {
    match r {
        Ok(subs) => {
            &&& pre.is_loaded()
            &&& !post.is_loaded()
            &&& post.table_view() == Seq::<(u32, C)>::empty()
            &&& !post.domain_api_ready()
            &&& subs@.len() == pre.table_view().len()
            &&& forall|i: int|
                0 <= i < subs@.len() ==> ((#[trigger] subs@[i]).id, subs@[i].closure)
                    == pre.table_view()[i]
        },
        Err(e) => {
            &&& e == BridgeError::LifecycleViolation
            &&& !pre.is_loaded()
            &&& post == pre
        },
    }
}

/// Loading while a session is live fails with `LifecycleViolation` and
/// leaves the live session untouched, whatever the new endpoint would have
/// been.
pub proof fn lemma_second_load_rejected<C>(
    pre: PluginWrapper<C>,
    post: PluginWrapper<C>,
    endpoint_id: u32,
    r: Result<(), BridgeError>,
)
    requires
        pre.is_loaded(),
        load_post(pre, post, endpoint_id, r),
    ensures
        r == Err::<(), BridgeError>(BridgeError::LifecycleViolation),
        post == pre,
{
}

/// A successful load followed immediately by an unload, with no events in
/// between, succeeds, hands back no subscriptions, and leaves the table
/// empty and the secondary-API slot cleared; unloading once more then
/// fails with `LifecycleViolation` and changes nothing.
pub proof fn lemma_load_unload_cycle<C>(
    unloaded: PluginWrapper<C>,
    loaded: PluginWrapper<C>,
    after_unload: PluginWrapper<C>,
    end_state: PluginWrapper<C>,
    endpoint_id: u32,
    r_load: Result<(), BridgeError>,
    r_unload: Result<Vec<Subscription<C>>, BridgeError>,
    r_again: Result<Vec<Subscription<C>>, BridgeError>,
)
    requires
        r_load is Ok,
        load_post(unloaded, loaded, endpoint_id, r_load),
        unload_post(loaded, after_unload, r_unload),
        unload_post(after_unload, end_state, r_again),
    ensures
        r_unload matches Ok(subs) && subs@.len() == 0,
        after_unload.table_view() == Seq::<(u32, C)>::empty(),
        !after_unload.domain_api_ready(),
        r_again matches Err(e) && e == BridgeError::LifecycleViolation,
        end_state == after_unload,
{
}

impl<C> PluginWrapper<C> {
    /// Whether a session is live: true between a successful `load` and the
    /// next successful `unload`.
    pub closed spec fn is_loaded(&self) -> bool {
        self.session is Some
    }

    /// The endpoint the host assigned to the live session.
    pub closed spec fn endpoint(&self) -> u32 {
        match self.session {
            Some(s) => s.endpoint_id,
            None => 0,
        }
    }

    /// The live subscriptions, in registration order; empty when unloaded.
    pub closed spec fn table_view(&self) -> Seq<(u32, C)> {
        match self.session {
            Some(s) => s.table@,
            None => Seq::empty(),
        }
    }

    /// Whether the bootstrap handshake has filled the secondary-API slot;
    /// false when unloaded.
    pub closed spec fn domain_api_ready(&self) -> bool {
        match self.session {
            Some(s) => s.domain_api_ready,
            None => false,
        }
    }

    /// The wrapper's invariant: the table never holds two entries for one
    /// message identifier.
    pub open spec fn wf(&self) -> bool {
        unique_ids(self.table_view())
    }

    /// A fresh, unloaded wrapper.
    pub fn new() -> (r: Self)
        ensures
            !r.is_loaded(),
            r.table_view() == Seq::<(u32, C)>::empty(),
            !r.domain_api_ready(),
            r.wf(),
    {
        PluginWrapper { session: None }
    }

    /// Whether a session is live.
    pub fn loaded(&self) -> (r: bool)
        ensures
            r == self.is_loaded(),
    {
        self.session.is_some()
    }

    /// The host's load entry point: creates the one session, with an empty
    /// table and the secondary API not yet acquired. Fails with
    /// `LifecycleViolation`, leaving the live session untouched, exactly
    /// when a session already exists.
    pub fn load(&mut self, endpoint_id: u32) -> (r: Result<(), BridgeError>)
        requires
            old(self).wf(),
        ensures
            final(self).wf(),
            load_post(*old(self), *final(self), endpoint_id, r),
    {
        if self.session.is_some() {
            return Err(BridgeError::LifecycleViolation);
        }
        self.session = Some(
            PluginSession { endpoint_id, table: SubscriptionTable::new(), domain_api_ready: false },
        );
        Ok(())
    }

    /// Records the outcome of the bootstrap handshake: whether the host
    /// wrote the secondary API pointer into the slot during the broadcast.
    /// Fails with `LifecycleViolation`, changing nothing, exactly when no
    /// session is live.
    pub fn complete_handshake(&mut self, api_acquired: bool) -> (r: Result<(), BridgeError>)
        ensures
            final(self).wf() == old(self).wf(),
            match r {
                Ok(()) => {
                    &&& old(self).is_loaded()
                    &&& final(self).is_loaded()
                    &&& final(self).endpoint() == old(self).endpoint()
                    &&& final(self).table_view() == old(self).table_view()
                    &&& final(self).domain_api_ready() == api_acquired
                },
                Err(e) => {
                    &&& e == BridgeError::LifecycleViolation
                    &&& !old(self).is_loaded()
                    &&& *final(self) == *old(self)
                },
            },
    {
        match &mut self.session {
            Some(session) => {
                session.domain_api_ready = api_acquired;
                Ok(())
            },
            None => Err(BridgeError::LifecycleViolation),
        }
    }

    /// Guard for every operation that needs the secondary domain API: fails
    /// with `HostApiUnavailable` exactly when no session is live or the
    /// handshake has not acquired the API.
    pub fn require_domain_api(&self) -> (r: Result<(), BridgeError>)
        ensures
            match r {
                Ok(()) => self.is_loaded() && self.domain_api_ready(),
                Err(e) => e == BridgeError::HostApiUnavailable && !(self.is_loaded()
                    && self.domain_api_ready()),
            },
    {
        match &self.session {
            Some(session) => if session.domain_api_ready {
                Ok(())
            } else {
                Err(BridgeError::HostApiUnavailable)
            },
            None => Err(BridgeError::HostApiUnavailable),
        }
    }

    /// Registers `closure` for `id` in the live session. Fails with
    /// `LifecycleViolation` when no session is live, and with
    /// `DuplicateSubscription` when a closure is already live for `id`;
    /// either failure leaves the wrapper untouched.
    pub fn register(&mut self, id: u32, closure: C) -> (r: Result<(), BridgeError>)
        requires
            old(self).wf(),
        ensures
            final(self).wf(),
            match r {
                Ok(()) => {
                    &&& old(self).is_loaded()
                    &&& seq_lookup(old(self).table_view(), id) is None
                    &&& final(self).is_loaded()
                    &&& final(self).table_view() == old(self).table_view().push((id, closure))
                    &&& final(self).endpoint() == old(self).endpoint()
                    &&& final(self).domain_api_ready() == old(self).domain_api_ready()
                },
                Err(e) => {
                    &&& final(self).is_loaded() == old(self).is_loaded()
                    &&& final(self).endpoint() == old(self).endpoint()
                    &&& final(self).table_view() == old(self).table_view()
                    &&& final(self).domain_api_ready() == old(self).domain_api_ready()
                    &&& if old(self).is_loaded() {
                        e == BridgeError::DuplicateSubscription && seq_lookup(
                            old(self).table_view(),
                            id,
                        ) is Some
                    } else {
                        e == BridgeError::LifecycleViolation
                    }
                },
            },
    {
        match &mut self.session {
            Some(session) => session.table.register(id, closure),
            None => Err(BridgeError::LifecycleViolation),
        }
    }

    /// Looks up the closure to invoke for a delivered event: the one
    /// registered for `id`, or nothing when the id has no live subscription
    /// or no session is live — a benign no-op, since an event may race an
    /// unsubscribe.
    pub fn dispatch(&self, id: u32) -> (r: Option<&C>)
        ensures
            match r {
                Some(c) => self.is_loaded() && seq_lookup(self.table_view(), id) == Some(*c),
                None => seq_lookup(self.table_view(), id) is None,
            },
    {
        match &self.session {
            Some(session) => session.table.dispatch(id),
            None => None,
        }
    }

    /// The host's unload entry point: destroys the session and hands back
    /// every live subscription, in registration order, for the shell to
    /// unsubscribe at the host and free exactly once. Afterwards the table
    /// is empty and the secondary-API slot is cleared. Fails with
    /// `LifecycleViolation`, changing nothing, exactly when no session is
    /// live.
    pub fn unload(&mut self) -> (r: Result<Vec<Subscription<C>>, BridgeError>)
        ensures
            final(self).wf(),
            unload_post(*old(self), *final(self), r),
    {
        match &mut self.session {
            Some(session) => {
                let subs = session.table.unregister_all();
                self.session = None;
                Ok(subs)
            },
            None => Err(BridgeError::LifecycleViolation),
        }
    }

    /// How many subscriptions are live; zero when unloaded.
    pub fn subscription_count(&self) -> (r: usize)
        ensures
            r == self.table_view().len(),
    {
        match &self.session {
            Some(session) => session.table.len(),
            None => 0,
        }
    }

    /// Whether the secondary domain API can be used right now.
    pub fn domain_api_available(&self) -> (r: bool)
        ensures
            r == (self.is_loaded() && self.domain_api_ready()),
    {
        match &self.session {
            Some(session) => session.domain_api_ready,
            None => false,
        }
    }

    /// The endpoint of the live session, for addressed broadcasts.
    pub fn endpoint_id(&self) -> (r: Option<u32>)
        ensures
            match r {
                Some(e) => self.is_loaded() && e == self.endpoint(),
                None => !self.is_loaded(),
            },
    {
        match &self.session {
            Some(session) => Some(session.endpoint_id),
            None => None,
        }
    }
}

} // verus!
