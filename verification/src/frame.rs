//! The envelope that every inbound frame carries, and the error frame that
//! answers a command which was refused.

use crate::json::{
    json_empty_object, json_model, json_parse, json_get, json_as_str, json_render,
    json_set, json_text, member, parsed_json, rendered_json, JsonModel,
};
use vstd::prelude::*;

verus! {

/// An inbound frame: the name of an operation and its payload.
#[derive(Debug, Clone)]
pub struct WebSocketMessage {
    pub action: String,
    pub payload: serde_json::Value,
}

/// Why a frame yields no command.
#[derive(Debug, Clone, Copy, PartialEq, Eq, Structural)]
pub enum FrameError {
    /// The frame is no JSON envelope, or its payload has not the shape that
    /// the action asks for.
    Malformed,
    /// The envelope names an action that the relay does not know.
    UnknownAction,
}

/// The kinds of error that end a command. Whatever the kind, only the caller
/// is told, and the connection stays open.
#[derive(Debug, Clone, Copy, PartialEq, Eq, Structural)]
pub enum ErrorKind {
    /// The command cannot be read, or names what does not exist.
    Validation,
    /// The rules of the domain do not allow the caller what it asks for.
    Authorization,
    /// The store failed.
    Persistence,
}

/// The action and the payload of a JSON document that is an envelope: an
/// object with text under `action` and any value under `payload`.
pub open spec fn envelope_of(document: Option<JsonModel>) -> Option<(Seq<char>, JsonModel)> {
    match document {
        Some(object) => match (member(object, "action"@), member(object, "payload"@)) {
            (Some(JsonModel::Text(action)), Some(payload)) => Some((action, payload)),
            _ => None,
        },
        None => None,
    }
}

impl WebSocketMessage {
    /// The action and the contents of the payload.
    pub open spec fn model(&self) -> (Seq<char>, JsonModel) {
        (self.action@, json_model(self.payload))
    }

    /// Reads the envelope of a text frame. `None` where the text is not JSON
    /// or is no envelope.
    pub fn parse(text: &str) -> (result: Option<WebSocketMessage>)
        ensures
            match result {
                Some(message) => envelope_of(parsed_json(text@)) == Some(message.model()),
                None => envelope_of(parsed_json(text@)) is None,
            },
    {
        let document = match json_parse(text) {
            Some(document) => document,
            None => {
                return None;
            },
        };
        let action = match json_get(&document, "action") {
            Some(inner) => match json_as_str(inner) {
                Some(action) => action.to_owned(),
                None => {
                    return None;
                },
            },
            None => {
                return None;
            },
        };
        match json_get(&document, "payload") {
            Some(inner) => Some(WebSocketMessage { action, payload: inner.clone() }),
            None => None,
        }
    }
}

/// The JSON of an error frame: `{"action":"error","payload":{"message":..}}`.
pub open spec fn error_frame_model(message: Seq<char>) -> JsonModel {
    JsonModel::Object(
        map![
            "action"@ => JsonModel::Text("error"@),
            "payload"@ => JsonModel::Object(map!["message"@ => JsonModel::Text(message)]),
        ],
    )
}

/// The text of the error frame that tells the caller, and nobody else, why its
/// command was refused.
pub fn error_frame(message: &str) -> (frame: String)
    ensures
        frame@ == rendered_json(error_frame_model(message@)),
{
    let mut payload = json_empty_object();
    json_set(&mut payload, "message", json_text(message));
    let mut frame = json_empty_object();
    json_set(&mut frame, "action", json_text("error"));
    json_set(&mut frame, "payload", payload);
    json_render(&frame)
}

} // verus!
