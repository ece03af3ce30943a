//! Value-level doubles of the host's two function tables, for tests.
//!
//! The real host is a set of C function pointers; tests drive the bridge
//! against these doubles instead. They share the host's contract: the
//! message-bus double resolves the well-known messages to fixed
//! identifiers, records which identifiers hold a host-side subscription,
//! and hands out the secondary API during a `GetAPI` broadcast addressed
//! to the right session; the domain-API double records notifications and
//! answers option lookups with the default selection.

use vstd::prelude::*;
use vstd::string::StringSliceAdditionalSpecFns;

use crate::encoding::bytes_eq;
use crate::errors::BridgeError;

verus! {

/// The session identifier the message-bus double hands to its plugin.
pub const TEST_SESSION_ID: u32 = 123;

/// The fixed identifier the message-bus double assigns to a well-known
/// `(namespace, name)` pair, or nothing for an unknown pair.
pub open spec fn well_known_id(name_space: Seq<u8>, name: Seq<u8>) -> Option<u32> {
    if name_space == "VPX".spec_bytes() {
        if name == "OnGameStart".spec_bytes() {
            Some(1u32)
        } else if name == "OnGameEnd".spec_bytes() {
            Some(2u32)
        } else if name == "OnPrepareFrame".spec_bytes() {
            Some(3u32)
        } else if name == "OnSettingsChanged".spec_bytes() {
            Some(4u32)
        } else if name == "GetAPI".spec_bytes() {
            Some(5u32)
        } else {
            None
        }
    } else {
        None
    }
}

/// A value-level double of the host's message bus.
pub struct TestMsgPluginAPI {
    session_id: u32,
    subscribed: Vec<u32>,
}

impl TestMsgPluginAPI {
    /// The identifiers that currently hold a host-side subscription, in
    /// the order they were subscribed.
    pub closed spec fn subscriptions(&self) -> Seq<u32> {
        self.subscribed@
    }

    /// The session identifier this double expects addressed broadcasts for.
    pub closed spec fn session(&self) -> u32 {
        self.session_id
    }

    /// A bus double for one session, with no subscriptions yet.
    pub fn init(session_id: u32) -> (r: Self)
        ensures
            r.session() == session_id,
            r.subscriptions() == Seq::<u32>::empty(),
    {
        TestMsgPluginAPI { session_id, subscribed: Vec::new() }
    }

    /// The bus's identifier lookup: the fixed identifier of a well-known
    /// pair, or `UnknownMessage` for any other pair.
    pub fn get_msg_id(&self, name_space: &str, name: &str) -> (r: Result<u32, BridgeError>)
        ensures
            match r {
                Ok(id) => well_known_id(name_space.spec_bytes(), name.spec_bytes()) == Some(id),
                Err(e) => e == BridgeError::UnknownMessage && well_known_id(
                    name_space.spec_bytes(),
                    name.spec_bytes(),
                ) is None,
            },
    {
        let ns = name_space.as_bytes();
        let nm = name.as_bytes();
        if !bytes_eq(ns, "VPX".as_bytes()) {
            return Err(BridgeError::UnknownMessage);
        }
        if bytes_eq(nm, "OnGameStart".as_bytes()) {
            Ok(1)
        } else if bytes_eq(nm, "OnGameEnd".as_bytes()) {
            Ok(2)
        } else if bytes_eq(nm, "OnPrepareFrame".as_bytes()) {
            Ok(3)
        } else if bytes_eq(nm, "OnSettingsChanged".as_bytes()) {
            Ok(4)
        } else if bytes_eq(nm, "GetAPI".as_bytes()) {
            Ok(5)
        } else {
            Err(BridgeError::UnknownMessage)
        }
    }

    /// The bus's subscribe call: records that events for `msg_id` are now
    /// delivered to this session.
    pub fn subscribe_msg(&mut self, msg_id: u32)
        ensures
            final(self).subscriptions() == old(self).subscriptions().push(msg_id),
            final(self).session() == old(self).session(),
    {
        self.subscribed.push(msg_id);
    }

    /// The bus's unsubscribe call: drops the first recorded subscription
    /// for `msg_id`, or nothing when none is live.
    pub fn unsubscribe_msg(&mut self, msg_id: u32)
        ensures
            final(self).session() == old(self).session(),
            final(self).subscriptions().len() <= old(self).subscriptions().len(),
            final(self).subscriptions().to_multiset() == if old(
                self,
            ).subscriptions().to_multiset().contains(msg_id) {
                old(self).subscriptions().to_multiset().remove(msg_id)
            } else {
                old(self).subscriptions().to_multiset()
            },
    {
        let n = self.subscribed.len();
        let mut i: usize = 0;
        while i < n
            invariant
                0 <= i <= n,
                *self == *old(self),
                n == self.subscribed@.len(),
                forall|j: int| 0 <= j < i ==> self.subscribed@[j] != msg_id,
            decreases n - i,
        {
            if self.subscribed[i] == msg_id {
                let ghost pre = self.subscribed@;
                self.subscribed.remove(i);
                proof {
                    pre.to_multiset_ensures();
                    lemma_remove_from_multiset(pre, i as int);
                }
                return ;
            }
            i = i + 1;
        }
        proof {
            self.subscribed@.to_multiset_ensures();
            lemma_absent_not_in_multiset(self.subscribed@, msg_id);
        }
    }

    /// The identifiers with a live host-side subscription, oldest first.
    pub fn subscription_ids(&self) -> (r: &Vec<u32>)
        ensures
            r@ == self.subscriptions(),
    {
        &self.subscribed
    }

    /// The bus's broadcast call: the host writes the secondary API pointer
    /// into the caller's slot exactly when the `GetAPI` message is
    /// broadcast to the double's own session. Returns whether it did.
    pub fn broadcast_msg(&self, endpoint_id: u32, msg_id: u32) -> (granted: bool)
        ensures
            granted == (endpoint_id == self.session() && msg_id == 5),
    {
        endpoint_id == self.session_id && msg_id == 5
    }
}

/// An identifier that occurs nowhere in a sequence is not in its multiset.
proof fn lemma_absent_not_in_multiset(s: Seq<u32>, msg_id: u32)
    requires
        forall|j: int| 0 <= j < s.len() ==> s[j] != msg_id,
    ensures
        !s.to_multiset().contains(msg_id),
{
    s.to_multiset_ensures();
    assert(!s.contains(msg_id));
    assert(s.to_multiset().count(msg_id) == 0);
}

/// Removing one element of a sequence removes exactly it from the multiset.
proof fn lemma_remove_from_multiset(s: Seq<u32>, i: int)
    requires
        0 <= i < s.len(),
    ensures
        s.remove(i).to_multiset() == s.to_multiset().remove(s[i]),
        s.to_multiset().contains(s[i]),
{
    s.to_multiset_ensures();
    assert(s.contains(s[i]));
    assert(s.to_multiset().count(s[i]) > 0);
}

/// A value-level double of the host's secondary domain API.
pub struct TestVPXPluginAPI {
    notifications: Vec<(Vec<u8>, u32)>,
}

impl TestVPXPluginAPI {
    /// How many notifications the plugin pushed.
    pub closed spec fn notification_count(&self) -> nat {
        self.notifications@.len()
    }

    /// A fresh domain-API double with no notifications shown.
    pub fn init() -> (r: Self)
        ensures
            r.notification_count() == 0,
    {
        TestVPXPluginAPI { notifications: Vec::new() }
    }

    /// The domain API's option lookup: the double always answers with the
    /// default selection, as a host with no stored settings would.
    pub fn get_option(&self) -> (r: u32)
        ensures
            r == 0,
    {
        0
    }

    /// The domain API's notification call: shows (records) one message for
    /// the given duration.
    pub fn push_notification(&mut self, message: Vec<u8>, duration_ms: u32)
        ensures
            final(self).notification_count() == old(self).notification_count() + 1,
    {
        self.notifications.push((message, duration_ms));
    }

    /// How many notifications have been shown so far.
    pub fn notifications_shown(&self) -> (r: usize)
        ensures
            r == self.notification_count(),
    {
        self.notifications.len()
    }
}

} // verus!
