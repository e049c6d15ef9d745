//! The commands of the friend domain and how a frame is read as one.

use crate::frame::{envelope_of, FrameError, WebSocketMessage};
use crate::json::{
    field_of, json_model, member, parsed_json, read_field, required_id, required_text, JsonModel,
};
use vstd::prelude::*;

verus! {

/// The payload of `send_request`.
#[derive(Debug, Clone, PartialEq, Eq)]
pub struct FriendRequestPayload {
    pub receiver_username: String,
}

/// One operation that a connection of the friend domain asks for.
#[derive(Debug, Clone, PartialEq, Eq)]
pub enum FriendCommand {
    SendRequest { receiver_username: String },
    Cancel { friend_req_id: i32 },
    Accept { friend_id: i32 },
}

/// The mathematical value of a [`FriendCommand`].
pub enum FriendCommandModel {
    SendRequest { receiver_username: Seq<char> },
    Cancel { friend_req_id: i32 },
    Accept { friend_id: i32 },
}

impl View for FriendRequestPayload {
    type V = Seq<char>;

    open spec fn view(&self) -> Seq<char> {
        self.receiver_username@
    }
}

impl View for FriendCommand {
    type V = FriendCommandModel;

    open spec fn view(&self) -> FriendCommandModel {
        match *self {
            FriendCommand::SendRequest { receiver_username } => FriendCommandModel::SendRequest {
                receiver_username: receiver_username@,
            },
            FriendCommand::Cancel { friend_req_id } => FriendCommandModel::Cancel { friend_req_id },
            FriendCommand::Accept { friend_id } => FriendCommandModel::Accept { friend_id },
        }
    }
}

/// A payload read as that of `send_request`: text under `receiver_username`.
pub open spec fn friend_request_of(payload: JsonModel) -> Option<Seq<char>> {
    required_text(field_of(member(payload, "receiver_username"@)))
}

/// The command that an envelope asks for. A friendship is named by its row
/// id: a number that is no row id makes the payload malformed.
pub open spec fn friend_command_of(action: Seq<char>, payload: JsonModel) -> Result<
    FriendCommandModel,
    FrameError,
> {
    if action == "send_request"@ {
        match friend_request_of(payload) {
            Some(receiver_username) => Ok(FriendCommandModel::SendRequest { receiver_username }),
            None => Err(FrameError::Malformed),
        }
    } else if action == "cancel"@ {
        match required_id(field_of(member(payload, "friend_req_id"@))) {
            Some(friend_req_id) => Ok(FriendCommandModel::Cancel { friend_req_id }),
            None => Err(FrameError::Malformed),
        }
    } else if action == "accept"@ {
        match required_id(field_of(member(payload, "friend_id"@))) {
            Some(friend_id) => Ok(FriendCommandModel::Accept { friend_id }),
            None => Err(FrameError::Malformed),
        }
    } else {
        Err(FrameError::UnknownAction)
    }
}

/// The command that the text of a frame asks for. A text that is no envelope
/// is malformed.
pub open spec fn friend_frame_command(text: Seq<char>) -> Result<FriendCommandModel, FrameError> {
    match envelope_of(parsed_json(text)) {
        Some((action, payload)) => friend_command_of(action, payload),
        None => Err(FrameError::Malformed),
    }
}

/// Whether `result` is what reading gave for a frame whose meaning is
/// `meaning`: the same error, or a command with the same value.
pub open spec fn reads_as(
    result: Result<FriendCommand, FrameError>,
    meaning: Result<FriendCommandModel, FrameError>,
) -> bool {
    match result {
        Ok(command) => meaning == Ok::<FriendCommandModel, FrameError>(command@),
        Err(error) => meaning == Err::<FriendCommandModel, FrameError>(error),
    }
}

impl FriendRequestPayload {
    /// Reads the payload of `send_request`.
    pub fn from_payload(payload: &serde_json::Value) -> (result: Option<FriendRequestPayload>)
        ensures
            match result {
                Some(read) => friend_request_of(json_model(*payload)) == Some(read@),
                None => friend_request_of(json_model(*payload)) is None,
            },
    {
        match read_field(payload, "receiver_username").into_text() {
            Some(receiver_username) => Some(FriendRequestPayload { receiver_username }),
            None => None,
        }
    }
}

impl FriendCommand {
    /// Reads the command of an envelope.
    pub fn from_envelope(envelope: &WebSocketMessage) -> (result: Result<FriendCommand, FrameError>)
        ensures
            reads_as(result, friend_command_of(envelope.action@, json_model(envelope.payload))),
    {
        let action = envelope.action.as_str();
        if *action == *"send_request" {
            match FriendRequestPayload::from_payload(&envelope.payload) {
                Some(request) => Ok(
                    FriendCommand::SendRequest { receiver_username: request.receiver_username },
                ),
                None => Err(FrameError::Malformed),
            }
        } else if *action == *"cancel" {
            match read_field(&envelope.payload, "friend_req_id").into_id() {
                Some(friend_req_id) => Ok(FriendCommand::Cancel { friend_req_id }),
                None => Err(FrameError::Malformed),
            }
        } else if *action == *"accept" {
            match read_field(&envelope.payload, "friend_id").into_id() {
                Some(friend_id) => Ok(FriendCommand::Accept { friend_id }),
                None => Err(FrameError::Malformed),
            }
        } else {
            Err(FrameError::UnknownAction)
        }
    }

    /// Reads the command of a text frame.
    pub fn from_text(text: &str) -> (result: Result<FriendCommand, FrameError>)
        ensures
            reads_as(result, friend_frame_command(text@)),
    {
        match WebSocketMessage::parse(text) {
            Some(envelope) => FriendCommand::from_envelope(&envelope),
            None => Err(FrameError::Malformed),
        }
    }
}

} // verus!
