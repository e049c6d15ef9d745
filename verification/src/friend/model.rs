//! The rows, the events and the sessions of the friend domain.

use crate::claims::Caller;
use crate::registry::Registry;
use vstd::prelude::*;

verus! {

/// A stored friendship. Its status is `pending` until the receiver accepts,
/// and `accepted` from then on.
#[derive(Debug, Clone, PartialEq, Eq)]
pub struct Friends {
    pub id: Option<i32>,
    pub sender_username: String,
    pub receiver_username: String,
    pub status: String,
}

/// A friendship as the event of its acceptance carries it.
#[derive(Debug, Clone, PartialEq, Eq)]
pub struct FriendRequestStatus {
    pub id: i32,
    pub sender_username: String,
    pub receiver_username: String,
    pub status: String,
}

/// The friendship that a cancellation removed.
#[derive(Debug, Clone, PartialEq, Eq)]
pub struct CancelFriendRequest {
    pub friend_req_id: i32,
}

/// An event of the friend domain.
#[derive(Debug, Clone, PartialEq, Eq)]
pub enum FriendAction {
    SendRequest(Friends),
    Accept(FriendRequestStatus),
    Cancel(CancelFriendRequest),
}

/// The live session of one connected user.
#[derive(Debug, Clone, PartialEq, Eq)]
pub struct UserSession {
    pub email: String,
    pub username: String,
    /// The connection that serves the session, by the handle of its outbound
    /// queue.
    pub outbound: u64,
}

/// The length of each subscriber's queue on the bus of the friend domain.
/// Events of this domain are rare, so the queue is short.
pub const FRIEND_BUS_CAPACITY: usize = 20;

/// What the connections of the friend domain share.
pub struct FriendAppState {
    /// The length of each subscriber's queue on the bus.
    pub capacity: usize,
    pub user_sessions: Registry<UserSession>,
}

impl UserSession {
    /// The session of `caller` on the connection `outbound`.
    pub fn open(caller: &Caller, outbound: u64) -> (session: UserSession)
        ensures
            session == (UserSession {
                email: caller.email,
                username: caller.username,
                outbound,
            }),
    {
        UserSession { email: caller.email.clone(), username: caller.username.clone(), outbound }
    }
}

impl FriendAppState {
    /// The state of a relay to which nobody is connected.
    pub fn new() -> (state: FriendAppState)
        ensures
            state.capacity == FRIEND_BUS_CAPACITY,
            state.user_sessions@ == Map::<Seq<char>, UserSession>::empty(),
    {
        FriendAppState { capacity: FRIEND_BUS_CAPACITY, user_sessions: Registry::new() }
    }

    /// Ends the session of `identity` if it still belongs to the connection
    /// `outbound`, and says whether it did. A session that a later connection
    /// of the same identity has registered stays.
    pub fn release(&mut self, identity: &str, outbound: u64) -> (released: bool)
        ensures
            final(self).capacity == old(self).capacity,
            released == (old(self).user_sessions@.contains_key(identity@) && old(
                self,
            ).user_sessions@[identity@].outbound == outbound),
            final(self).user_sessions@ == if released {
                old(self).user_sessions@.remove(identity@)
            } else {
                old(self).user_sessions@
            },
    {
        let owned = match self.user_sessions.get(identity) {
            Some(found) => found.outbound == outbound,
            None => false,
        };
        if owned {
            let _ = self.user_sessions.remove(identity);
        }
        owned
    }
}

} // verus!
