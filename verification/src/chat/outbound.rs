//! The outbound side of a chat connection: which events a subscriber may
//! see, and the frame in which it sees them.

use crate::chat::model::{AppState, Chat, ChatMessage, OutgoingMessage, UserSession};
use crate::connection::{reaches, Delivery};
use crate::json::{
    id_or_null, json_bool, json_empty_object, json_id_or_null, json_integer, json_model,
    json_render, json_set, json_text, json_text_or_null, rendered_json, text_or_null, JsonModel,
};
use vstd::prelude::*;

verus! {

/// Whether `username` is one of the two participants of `chat`.
pub open spec fn takes_part(chat: Chat, username: Seq<char>) -> bool {
    chat.first_user_name@ == username || chat.second_user_name@ == username
}

/// The relay's decision on an event for a subscriber with the display name
/// `username` whose session caches the chats `user_chats`.
///
/// A new or edited message goes to the members of its chat: to those whose
/// session lists the chat, and for the others the store is asked, since a
/// chat may be younger than the list. A deletion goes to everybody. A new
/// chat goes to its two participants, and a changed biography to its owner.
pub open spec fn visibility(event: OutgoingMessage, username: Seq<char>, user_chats: Seq<i32>) -> Delivery {
    match event {
        OutgoingMessage::NewMessage(message) => message_visibility(message, user_chats),
        OutgoingMessage::EditMessage(message) => message_visibility(message, user_chats),
        OutgoingMessage::Delete { .. } => Delivery::Deliver,
        OutgoingMessage::NewChat(chat) => if takes_part(chat, username) {
            Delivery::Deliver
        } else {
            Delivery::Skip
        },
        OutgoingMessage::ChangeBio(bio) => if bio.username@ == username {
            Delivery::Deliver
        } else {
            Delivery::Skip
        },
    }
}

/// The relay's decision on a message for a subscriber whose session caches
/// the chats `user_chats`.
pub open spec fn message_visibility(message: ChatMessage, user_chats: Seq<i32>) -> Delivery {
    match message.chat_id {
        Some(chat_id) => if user_chats.contains(chat_id) {
            Delivery::Deliver
        } else {
            Delivery::AskStore { id: chat_id }
        },
        None => Delivery::Skip,
    }
}

/// The relay's decision on an event for the connection of `email`, whose user
/// has the display name `username`. A connection whose session has left the
/// registry gets nothing more.
pub open spec fn verdict(
    sessions: Map<Seq<char>, UserSession>,
    email: Seq<char>,
    username: Seq<char>,
    event: OutgoingMessage,
) -> Delivery {
    if sessions.contains_key(email) {
        visibility(event, username, sessions[email].user_chats@)
    } else {
        Delivery::Stop
    }
}

/// Whether a session's list of chats holds `chat_id`.
pub fn lists_chat(user_chats: &Vec<i32>, chat_id: i32) -> (listed: bool)
    ensures
        listed == user_chats@.contains(chat_id),
{
    let mut index: usize = 0;
    while index < user_chats.len()
        invariant
            index <= user_chats.len(),
            forall|before: int| 0 <= before < index ==> user_chats@[before] != chat_id,
        decreases user_chats.len() - index,
    {
        if user_chats[index] == chat_id {
            return true;
        }
        index += 1;
    }
    false
}

fn decide_on_message(message: &ChatMessage, user_chats: &Vec<i32>) -> (delivery: Delivery)
    ensures
        delivery == message_visibility(*message, user_chats@),
{
    match message.chat_id {
        Some(chat_id) => if lists_chat(user_chats, chat_id) {
            Delivery::Deliver
        } else {
            Delivery::AskStore { id: chat_id }
        },
        None => Delivery::Skip,
    }
}

/// Decides whether a subscriber may see an event.
pub fn resolve(event: &OutgoingMessage, username: &str, user_chats: &Vec<i32>) -> (delivery: Delivery)
    ensures
        delivery == visibility(*event, username@, user_chats@),
{
    match event {
        OutgoingMessage::NewMessage(message) => decide_on_message(message, user_chats),
        OutgoingMessage::EditMessage(message) => decide_on_message(message, user_chats),
        OutgoingMessage::Delete { .. } => Delivery::Deliver,
        OutgoingMessage::NewChat(chat) => {
            if *chat.first_user_name.as_str() == *username || *chat.second_user_name.as_str()
                == *username {
                Delivery::Deliver
            } else {
                Delivery::Skip
            }
        },
        OutgoingMessage::ChangeBio(bio) => {
            if *bio.username.as_str() == *username {
                Delivery::Deliver
            } else {
                Delivery::Skip
            }
        },
    }
}

/// Decides what the connection of `email` does with an event that came off
/// the bus.
pub fn on_event(state: &AppState, email: &str, username: &str, event: &OutgoingMessage) -> (delivery:
    Delivery)
    ensures
        delivery == verdict(state.user_sessions@, email@, username@, *event),
{
    match state.user_sessions.get(email) {
        Some(session) => resolve(event, username, &session.user_chats),
        None => Delivery::Stop,
    }
}

/// Looks for the session of `email`, as the watchdog does at each tick.
pub fn on_tick(state: &AppState, email: &str) -> (registered: bool)
    ensures
        registered == state.user_sessions@.contains_key(email@),
{
    state.user_sessions.contains(email)
}

/// A new message reaches the two participants of its chat and nobody else.
///
/// Take a chat and a message stored in it, and any connected subscriber. If
/// the subscriber takes part in the chat, it gets the message: at once where
/// its session lists the chat, else on the store's word. If it does not take
/// part, its session does not list the chat and the store says no, it does
/// not get the message.
pub proof fn lemma_new_message_reaches_its_chat(
    chat: Chat,
    message: ChatMessage,
    sessions: Map<Seq<char>, UserSession>,
    email: Seq<char>,
    username: Seq<char>,
    store_says: bool,
)
    requires
        message.chat_id == Some(chat.id),
        sessions.contains_key(email),
        store_says == takes_part(chat, username),
    ensures
        takes_part(chat, username) ==> reaches(
            verdict(sessions, email, username, OutgoingMessage::NewMessage(message)),
            store_says,
        ),
        !takes_part(chat, username) && !sessions[email].user_chats@.contains(chat.id) ==> !reaches(
            verdict(sessions, email, username, OutgoingMessage::NewMessage(message)),
            store_says,
        ),
{
}

/// A connection whose session has left the registry gets no event.
pub proof fn lemma_absent_session_gets_nothing(
    sessions: Map<Seq<char>, UserSession>,
    email: Seq<char>,
    username: Seq<char>,
    event: OutgoingMessage,
    store_says: bool,
)
    ensures
        !reaches(verdict(sessions.remove(email), email, username, event), store_says),
        verdict(sessions.remove(email), email, username, event) == Delivery::Stop,
{
}

/// The frame of an event: a JSON object with the name of the event under
/// `action`, beside the members of the row that the event carries.
pub open spec fn event_model(event: OutgoingMessage) -> JsonModel {
    match event {
        OutgoingMessage::NewMessage(message) => message_model("new_message"@, message),
        OutgoingMessage::EditMessage(message) => message_model("edit_message"@, message),
        OutgoingMessage::Delete { message_id } => JsonModel::Object(
            map![
                "action"@ => JsonModel::Text("delete"@),
                "message_id"@ => JsonModel::Integer(message_id as int),
            ],
        ),
        OutgoingMessage::NewChat(chat) => JsonModel::Object(
            map![
                "action"@ => JsonModel::Text("new_chat"@),
                "id"@ => JsonModel::Integer(chat.id as int),
                "first_user_name"@ => JsonModel::Text(chat.first_user_name@),
                "second_user_name"@ => JsonModel::Text(chat.second_user_name@),
                "last_update"@ => JsonModel::Text(chat.last_update@),
            ],
        ),
        OutgoingMessage::ChangeBio(bio) => JsonModel::Object(
            map![
                "action"@ => JsonModel::Text("change_bio"@),
                "username"@ => JsonModel::Text(bio.username@),
                "biography"@ => text_or_null(bio.biography),
            ],
        ),
    }
}

/// The frame of an event that carries a message.
pub open spec fn message_model(action: Seq<char>, message: ChatMessage) -> JsonModel {
    JsonModel::Object(
        map![
            "action"@ => JsonModel::Text(action),
            "id"@ => id_or_null(message.id),
            "chat_id"@ => id_or_null(message.chat_id),
            "username"@ => JsonModel::Text(message.username@),
            "message"@ => JsonModel::Text(message.message@),
            "replied_user"@ => text_or_null(message.replied_user),
            "replied_message"@ => text_or_null(message.replied_message),
            "time"@ => JsonModel::Text(message.time@),
            "edited"@ => JsonModel::Bool(message.edited),
        ],
    )
}

fn message_frame(action: &str, message: &ChatMessage) -> (frame: serde_json::Value)
    ensures
        json_model(frame) == message_model(action@, *message),
{
    let mut frame = json_empty_object();
    json_set(&mut frame, "action", json_text(action));
    json_set(&mut frame, "id", json_id_or_null(message.id));
    json_set(&mut frame, "chat_id", json_id_or_null(message.chat_id));
    json_set(&mut frame, "username", json_text(message.username.as_str()));
    json_set(&mut frame, "message", json_text(message.message.as_str()));
    json_set(&mut frame, "replied_user", json_text_or_null(&message.replied_user));
    json_set(&mut frame, "replied_message", json_text_or_null(&message.replied_message));
    json_set(&mut frame, "time", json_text(message.time.as_str()));
    json_set(&mut frame, "edited", json_bool(message.edited));
    frame
}

/// Writes the frame of an event.
pub fn encode(event: &OutgoingMessage) -> (frame: String)
    ensures
        frame@ == rendered_json(event_model(*event)),
{
    let frame = match event {
        OutgoingMessage::NewMessage(message) => message_frame("new_message", message),
        OutgoingMessage::EditMessage(message) => message_frame("edit_message", message),
        OutgoingMessage::Delete { message_id } => {
            let mut frame = json_empty_object();
            json_set(&mut frame, "action", json_text("delete"));
            json_set(&mut frame, "message_id", json_integer(*message_id as i64));
            frame
        },
        OutgoingMessage::NewChat(chat) => {
            let mut frame = json_empty_object();
            json_set(&mut frame, "action", json_text("new_chat"));
            json_set(&mut frame, "id", json_integer(chat.id as i64));
            json_set(&mut frame, "first_user_name", json_text(chat.first_user_name.as_str()));
            json_set(&mut frame, "second_user_name", json_text(chat.second_user_name.as_str()));
            json_set(&mut frame, "last_update", json_text(chat.last_update.as_str()));
            frame
        },
        OutgoingMessage::ChangeBio(bio) => {
            let mut frame = json_empty_object();
            json_set(&mut frame, "action", json_text("change_bio"));
            json_set(&mut frame, "username", json_text(bio.username.as_str()));
            json_set(&mut frame, "biography", json_text_or_null(&bio.biography));
            frame
        },
    };
    json_render(&frame)
}

} // verus!
