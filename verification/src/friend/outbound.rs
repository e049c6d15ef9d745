//! The outbound side of a friend connection: which events a subscriber may
//! see, and the frame in which it sees them.

use crate::connection::{reaches, Delivery};
use crate::friend::model::{FriendAction, FriendAppState, UserSession};
use crate::json::{
    id_or_null, json_empty_object, json_id_or_null, json_integer, json_render, json_set,
    json_text, rendered_json, JsonModel,
};
use vstd::prelude::*;

verus! {

/// The relay's decision on an event for a subscriber with the display name
/// `username`.
///
/// A request goes to its sender and its receiver. For an accepted request the
/// store is asked whether the subscriber sent or received it. A cancellation
/// goes to everybody.
pub open spec fn visibility(event: FriendAction, username: Seq<char>) -> Delivery {
    match event {
        FriendAction::SendRequest(friendship) => if friendship.receiver_username@ == username
            || friendship.sender_username@ == username {
            Delivery::Deliver
        } else {
            Delivery::Skip
        },
        FriendAction::Accept(status) => Delivery::AskStore { id: status.id },
        FriendAction::Cancel(_) => Delivery::Deliver,
    }
}

/// The relay's decision on an event for the connection of `email`, whose user
/// has the display name `username`. A connection whose session has left the
/// registry gets nothing more.
pub open spec fn verdict(
    sessions: Map<Seq<char>, UserSession>,
    email: Seq<char>,
    username: Seq<char>,
    event: FriendAction,
) -> Delivery {
    if sessions.contains_key(email) {
        visibility(event, username)
    } else {
        Delivery::Stop
    }
}

/// Decides whether a subscriber may see an event.
pub fn resolve(event: &FriendAction, username: &str) -> (delivery: Delivery)
    ensures
        delivery == visibility(*event, username@),
{
    match event {
        FriendAction::SendRequest(friendship) => {
            if *friendship.receiver_username.as_str() == *username
                || *friendship.sender_username.as_str() == *username {
                Delivery::Deliver
            } else {
                Delivery::Skip
            }
        },
        FriendAction::Accept(status) => Delivery::AskStore { id: status.id },
        FriendAction::Cancel(_) => Delivery::Deliver,
    }
}

/// Decides what the connection of `email` does with an event that came off
/// the bus.
pub fn on_event(state: &FriendAppState, email: &str, username: &str, event: &FriendAction) -> (delivery:
    Delivery)
    ensures
        delivery == verdict(state.user_sessions@, email@, username@, *event),
{
    if state.user_sessions.contains(email) {
        resolve(event, username)
    } else {
        Delivery::Stop
    }
}

/// Looks for the session of `email`, as the watchdog does at each tick.
pub fn on_tick(state: &FriendAppState, email: &str) -> (registered: bool)
    ensures
        registered == state.user_sessions@.contains_key(email@),
{
    state.user_sessions.contains(email)
}

/// A connection whose session has left the registry gets no event.
pub proof fn lemma_absent_session_gets_nothing(
    sessions: Map<Seq<char>, UserSession>,
    email: Seq<char>,
    username: Seq<char>,
    event: FriendAction,
    store_says: bool,
)
    ensures
        !reaches(verdict(sessions.remove(email), email, username, event), store_says),
        verdict(sessions.remove(email), email, username, event) == Delivery::Stop,
{
}

/// The frame of an event: a JSON object with the name of the event under
/// `action`, beside the members of the row that the event carries.
pub open spec fn event_model(event: FriendAction) -> JsonModel {
    match event {
        FriendAction::SendRequest(friendship) => JsonModel::Object(
            map![
                "action"@ => JsonModel::Text("send_request"@),
                "id"@ => id_or_null(friendship.id),
                "sender_username"@ => JsonModel::Text(friendship.sender_username@),
                "receiver_username"@ => JsonModel::Text(friendship.receiver_username@),
                "status"@ => JsonModel::Text(friendship.status@),
            ],
        ),
        FriendAction::Accept(status) => JsonModel::Object(
            map![
                "action"@ => JsonModel::Text("accept"@),
                "id"@ => JsonModel::Integer(status.id as int),
                "sender_username"@ => JsonModel::Text(status.sender_username@),
                "receiver_username"@ => JsonModel::Text(status.receiver_username@),
                "status"@ => JsonModel::Text(status.status@),
            ],
        ),
        FriendAction::Cancel(cancelled) => JsonModel::Object(
            map![
                "action"@ => JsonModel::Text("cancel"@),
                "friend_req_id"@ => JsonModel::Integer(cancelled.friend_req_id as int),
            ],
        ),
    }
}

/// Writes the frame of an event.
pub fn encode(event: &FriendAction) -> (frame: String)
    ensures
        frame@ == rendered_json(event_model(*event)),
{
    let mut frame = json_empty_object();
    match event {
        FriendAction::SendRequest(friendship) => {
            json_set(&mut frame, "action", json_text("send_request"));
            json_set(&mut frame, "id", json_id_or_null(friendship.id));
            json_set(&mut frame, "sender_username", json_text(friendship.sender_username.as_str()));
            json_set(
                &mut frame,
                "receiver_username",
                json_text(friendship.receiver_username.as_str()),
            );
            json_set(&mut frame, "status", json_text(friendship.status.as_str()));
        },
        FriendAction::Accept(status) => {
            json_set(&mut frame, "action", json_text("accept"));
            json_set(&mut frame, "id", json_integer(status.id as i64));
            json_set(&mut frame, "sender_username", json_text(status.sender_username.as_str()));
            json_set(&mut frame, "receiver_username", json_text(status.receiver_username.as_str()));
            json_set(&mut frame, "status", json_text(status.status.as_str()));
        },
        FriendAction::Cancel(cancelled) => {
            json_set(&mut frame, "action", json_text("cancel"));
            json_set(&mut frame, "friend_req_id", json_integer(cancelled.friend_req_id as i64));
        },
    }
    json_render(&frame)
}

} // verus!
