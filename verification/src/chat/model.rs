//! The rows, the events and the sessions of the chat domain.

use crate::claims::Caller;
use crate::registry::Registry;
use crate::text::{lemma_text_precedes_total, precedes, text_precedes};
use vstd::prelude::*;

verus! {

/// A stored message.
#[derive(Debug, Clone, PartialEq, Eq)]
pub struct ChatMessage {
    pub id: Option<i32>,
    pub chat_id: Option<i32>,
    pub username: String,
    pub message: String,
    pub replied_user: Option<String>,
    pub replied_message: Option<String>,
    /// When the message was stored, as an RFC 3339 timestamp.
    pub time: String,
    pub edited: bool,
}

/// A stored chat between two users. The store keeps the two names in
/// canonical order: see [`canonical_pair`].
#[derive(Debug, Clone, PartialEq, Eq)]
pub struct Chat {
    pub id: i32,
    pub first_user_name: String,
    pub second_user_name: String,
    /// When the chat last got a message, as an RFC 3339 timestamp.
    pub last_update: String,
}

/// The biography of a user.
#[derive(Debug, Clone, PartialEq, Eq)]
pub struct Bio {
    pub username: String,
    pub biography: Option<String>,
}

/// An event of the chat domain: one committed change, with the row it left.
#[derive(Debug, Clone, PartialEq, Eq)]
pub enum OutgoingMessage {
    NewMessage(ChatMessage),
    EditMessage(ChatMessage),
    Delete { message_id: i32 },
    NewChat(Chat),
    ChangeBio(Bio),
}

/// The live session of one connected user.
#[derive(Debug, Clone, PartialEq, Eq)]
pub struct UserSession {
    pub email: String,
    pub username: String,
    /// The chats that the user took part in when the session last asked.
    pub user_chats: Vec<i32>,
    /// The connection that serves the session, by the handle of its outbound
    /// queue.
    pub outbound: u64,
}

/// The length of each subscriber's queue on the bus of the chat domain.
pub const CHAT_BUS_CAPACITY: usize = 1000;

/// What the connections of the chat domain share.
pub struct AppState {
    /// The length of each subscriber's queue on the bus.
    pub capacity: usize,
    pub user_sessions: Registry<UserSession>,
}

/// The two names of a chat in the order in which the store keeps them: the
/// lexicographically smaller one first.
pub open spec fn canonical(first: String, second: String) -> (String, String) {
    if text_precedes(second@, first@) {
        (second, first)
    } else {
        (first, second)
    }
}

/// Puts the two participants of a chat in canonical order.
pub fn canonical_pair(first: String, second: String) -> (pair: (String, String))
    ensures
        pair == canonical(first, second),
{
    if precedes(second.as_str(), first.as_str()) {
        (second, first)
    } else {
        (first, second)
    }
}

/// A canonical pair is in order: its second name never comes before its
/// first.
pub proof fn lemma_canonical_is_ordered(first: String, second: String)
    ensures
        !text_precedes(canonical(first, second).1@, canonical(first, second).0@),
{
    if text_precedes(second@, first@) {
        crate::text::lemma_bytes_precede_asymmetric(
            vstd::utf8::encode_utf8(second@),
            vstd::utf8::encode_utf8(first@),
        );
    }
}

/// The canonical pair does not depend on the order in which the two
/// participants are named.
pub proof fn lemma_canonical_ignores_order(first: String, second: String)
    ensures
        canonical(first, second).0@ == canonical(second, first).0@,
        canonical(first, second).1@ == canonical(second, first).1@,
{
    if text_precedes(second@, first@) {
        crate::text::lemma_bytes_precede_asymmetric(
            vstd::utf8::encode_utf8(second@),
            vstd::utf8::encode_utf8(first@),
        );
    } else if !text_precedes(first@, second@) {
        lemma_text_precedes_total(first@, second@);
    }
}

impl UserSession {
    /// The session of `caller` on the connection `outbound`, with the chats
    /// that the store lists for it.
    pub fn open(caller: &Caller, user_chats: Vec<i32>, outbound: u64) -> (session: UserSession)
        ensures
            session == (UserSession {
                email: caller.email,
                username: caller.username,
                user_chats,
                outbound,
            }),
    {
        UserSession {
            email: caller.email.clone(),
            username: caller.username.clone(),
            user_chats,
            outbound,
        }
    }
}

/// A session after its cached membership was replaced by `chat_ids`.
pub open spec fn refreshed(session: UserSession, chat_ids: Vec<i32>) -> UserSession {
    UserSession {
        email: session.email,
        username: session.username,
        user_chats: chat_ids,
        outbound: session.outbound,
    }
}

/// Whether the `index`-th registered session is the first one, in the order
/// of registration, whose display name is `username`.
pub open spec fn is_first_named(
    sessions: Registry<UserSession>,
    username: Seq<char>,
    index: int,
) -> bool {
    &&& 0 <= index < sessions.order().len()
    &&& sessions@[sessions.order()[index]].username@ == username
    &&& forall|earlier: int|
        0 <= earlier < index ==> (#[trigger] sessions@[sessions.order()[earlier]]).username@
            != username
}

/// The identity of the first registered session whose display name is
/// `username`, if there is one.
pub open spec fn holder_of(sessions: Registry<UserSession>, username: Seq<char>) -> Option<
    Seq<char>,
> {
    if exists|index: int| is_first_named(sessions, username, index) {
        Some(sessions.order()[choose|index: int| is_first_named(sessions, username, index)])
    } else {
        None
    }
}

impl AppState {
    /// The state of a relay to which nobody is connected.
    pub fn new() -> (state: AppState)
        ensures
            state.capacity == CHAT_BUS_CAPACITY,
            state.user_sessions@ == Map::<Seq<char>, UserSession>::empty(),
    {
        AppState { capacity: CHAT_BUS_CAPACITY, user_sessions: Registry::new() }
    }

    /// Replaces the cached membership of the live session of `identity`. An
    /// identity without a live session is passed over.
    pub fn update_membership(&mut self, identity: &str, chat_ids: Vec<i32>)
        ensures
            final(self).capacity == old(self).capacity,
            final(self).user_sessions.order() == old(self).user_sessions.order(),
            final(self).user_sessions@ == if old(self).user_sessions@.contains_key(identity@) {
                old(self).user_sessions@.insert(
                    identity@,
                    refreshed(old(self).user_sessions@[identity@], chat_ids),
                )
            } else {
                old(self).user_sessions@
            },
    {
        let session = match self.user_sessions.get(identity) {
            Some(found) => UserSession {
                email: found.email.clone(),
                username: found.username.clone(),
                user_chats: chat_ids,
                outbound: found.outbound,
            },
            None => {
                return ;
            },
        };
        self.user_sessions.register(identity.to_owned(), session);
    }

    /// Replaces the cached membership of the user whose display name is
    /// `username`: of the first registered session that carries the name.
    /// Where no live session carries it, nothing changes.
    pub fn update_user_chats(&mut self, username: &str, updated_chats: Vec<i32>)
        ensures
            final(self).capacity == old(self).capacity,
            final(self).user_sessions@ == match holder_of(old(self).user_sessions, username@) {
                Some(identity) => old(self).user_sessions@.insert(
                    identity,
                    refreshed(old(self).user_sessions@[identity], updated_chats),
                ),
                None => old(self).user_sessions@,
            },
    {
        let mut index: usize = 0;
        while index < self.user_sessions.len()
            invariant
                *self == *old(self),
                index <= self.user_sessions.order().len(),
                forall|earlier: int|
                    0 <= earlier < index ==> (#[trigger] self.user_sessions@[self.user_sessions.order()[earlier]]).username@
                        != username@,
            decreases self.user_sessions.order().len() - index,
        {
            if *self.user_sessions.session_at(index).username.as_str() == *username {
                let identity = self.user_sessions.identity_at(index).clone();
                proof {
                    let found = index as int;
                    assert(is_first_named(self.user_sessions, username@, found));
                    let chosen = choose|at: int| is_first_named(self.user_sessions, username@, at);
                    assert(is_first_named(self.user_sessions, username@, chosen));
                    if chosen < found {
                        assert(self.user_sessions@[self.user_sessions.order()[chosen]].username@
                            != username@);
                    } else if found < chosen {
                        assert(self.user_sessions@[self.user_sessions.order()[found]].username@
                            != username@);
                    }
                }
                self.update_membership(identity.as_str(), updated_chats);
                return ;
            }
            index += 1;
        }
        proof {
            if exists|at: int| is_first_named(self.user_sessions, username@, at) {
                let chosen = choose|at: int| is_first_named(self.user_sessions, username@, at);
                assert(self.user_sessions@[self.user_sessions.order()[chosen]].username@
                    != username@);
            }
        }
    }

    /// Ends the session of `identity` if it still belongs to the connection
    /// `outbound`, and says whether it did. A session that a later connection
    /// of the same identity has registered stays.
    pub fn release(&mut self, identity: &str, outbound: u64) -> (released: bool)
        ensures
            final(self).capacity == old(self).capacity,
            released == (old(self).user_sessions@.contains_key(identity@) && old(
                self,
            ).user_sessions@[identity@].outbound == outbound),
            final(self).user_sessions@ == if released {
                old(self).user_sessions@.remove(identity@)
            } else {
                old(self).user_sessions@
            },
    {
        let owned = match self.user_sessions.get(identity) {
            Some(found) => found.outbound == outbound,
            None => false,
        };
        if owned {
            let _ = self.user_sessions.remove(identity);
        }
        owned
    }
}

} // verus!
