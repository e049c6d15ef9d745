//! The commands of the chat domain and how a frame is read as one.

use crate::frame::{envelope_of, FrameError, WebSocketMessage};
use crate::json::{
    field_of, json_model, member, optional_id, optional_text, parsed_json, read_field,
    required_id, required_text, JsonModel,
};
use vstd::prelude::*;

verus! {

/// The payload of `new_message`.
#[derive(Debug, Clone, PartialEq, Eq)]
pub struct NewMessage {
    pub message: String,
    pub chat_partner: Option<String>,
    pub reply: Option<i32>,
}

/// The payload of `edit_message`.
#[derive(Debug, Clone, PartialEq, Eq)]
pub struct EditMessage {
    pub message_id: i32,
    pub message: String,
}

/// The payload of `new_chat`.
#[derive(Debug, Clone, PartialEq, Eq)]
pub struct NewChat {
    pub second_user_name: Option<String>,
}

/// The payload of `delete_message`.
#[derive(Debug, Clone, PartialEq, Eq)]
pub struct DeleteMessageRequest {
    pub id: i32,
}

/// The payload of `change_bio`.
#[derive(Debug, Clone, PartialEq, Eq)]
pub struct ChangeBio {
    pub biography: Option<String>,
}

/// One operation that a connection of the chat domain asks for.
#[derive(Debug, Clone, PartialEq, Eq)]
pub enum ChatCommand {
    NewMessage { chat_partner: String, message: String, reply: Option<i32> },
    EditMessage { message_id: i32, message: String },
    DeleteMessage { id: i32 },
    NewChat { second_user_name: String },
    ChangeBio { biography: String },
}

/// The mathematical value of a [`NewMessage`].
pub struct NewMessageModel {
    pub message: Seq<char>,
    pub chat_partner: Option<Seq<char>>,
    pub reply: Option<i32>,
}

/// The mathematical value of an [`EditMessage`].
pub struct EditMessageModel {
    pub message_id: i32,
    pub message: Seq<char>,
}

/// The mathematical value of a [`ChatCommand`].
pub enum ChatCommandModel {
    NewMessage { chat_partner: Seq<char>, message: Seq<char>, reply: Option<i32> },
    EditMessage { message_id: i32, message: Seq<char> },
    DeleteMessage { id: i32 },
    NewChat { second_user_name: Seq<char> },
    ChangeBio { biography: Seq<char> },
}

impl View for NewMessage {
    type V = NewMessageModel;

    open spec fn view(&self) -> NewMessageModel {
        NewMessageModel {
            message: self.message@,
            chat_partner: self.chat_partner.deep_view(),
            reply: self.reply,
        }
    }
}

impl View for EditMessage {
    type V = EditMessageModel;

    open spec fn view(&self) -> EditMessageModel {
        EditMessageModel { message_id: self.message_id, message: self.message@ }
    }
}

impl View for NewChat {
    type V = Option<Seq<char>>;

    open spec fn view(&self) -> Option<Seq<char>> {
        self.second_user_name.deep_view()
    }
}

impl View for DeleteMessageRequest {
    type V = i32;

    open spec fn view(&self) -> i32 {
        self.id
    }
}

impl View for ChangeBio {
    type V = Option<Seq<char>>;

    open spec fn view(&self) -> Option<Seq<char>> {
        self.biography.deep_view()
    }
}

impl View for ChatCommand {
    type V = ChatCommandModel;

    open spec fn view(&self) -> ChatCommandModel {
        match *self {
            ChatCommand::NewMessage { chat_partner, message, reply } => ChatCommandModel::NewMessage {
                chat_partner: chat_partner@,
                message: message@,
                reply,
            },
            ChatCommand::EditMessage { message_id, message } => ChatCommandModel::EditMessage {
                message_id,
                message: message@,
            },
            ChatCommand::DeleteMessage { id } => ChatCommandModel::DeleteMessage { id },
            ChatCommand::NewChat { second_user_name } => ChatCommandModel::NewChat {
                second_user_name: second_user_name@,
            },
            ChatCommand::ChangeBio { biography } => ChatCommandModel::ChangeBio {
                biography: biography@,
            },
        }
    }
}

/// The member of a payload under `key`, as the relay reads it.
pub open spec fn payload_field(payload: JsonModel, key: Seq<char>) -> crate::json::FieldModel {
    field_of(member(payload, key))
}

/// A payload read as that of `new_message`: text under `message`, and, where
/// they are given, text under `chat_partner` and a row id under `reply`.
pub open spec fn new_message_of(payload: JsonModel) -> Option<NewMessageModel> {
    match (
        required_text(payload_field(payload, "message"@)),
        optional_text(payload_field(payload, "chat_partner"@)),
        optional_id(payload_field(payload, "reply"@)),
    ) {
        (Some(message), Some(chat_partner), Some(reply)) => Some(
            NewMessageModel { message, chat_partner, reply },
        ),
        _ => None,
    }
}

/// A payload read as that of `edit_message`: a row id under `message_id` and
/// text under `message`.
pub open spec fn edit_message_of(payload: JsonModel) -> Option<EditMessageModel> {
    match (
        required_id(payload_field(payload, "message_id"@)),
        required_text(payload_field(payload, "message"@)),
    ) {
        (Some(message_id), Some(message)) => Some(EditMessageModel { message_id, message }),
        _ => None,
    }
}

/// A payload read as that of `new_chat`: text under `second_user_name`, where
/// it is given. The outer `None` says that the member holds something else.
pub open spec fn new_chat_of(payload: JsonModel) -> Option<Option<Seq<char>>> {
    optional_text(payload_field(payload, "second_user_name"@))
}

/// A payload read as that of `delete_message`: a row id under `id`.
pub open spec fn delete_message_of(payload: JsonModel) -> Option<i32> {
    required_id(payload_field(payload, "id"@))
}

/// A payload read as that of `change_bio`: text under `biography`, where it
/// is given. The outer `None` says that the member holds something else.
pub open spec fn change_bio_of(payload: JsonModel) -> Option<Option<Seq<char>>> {
    optional_text(payload_field(payload, "biography"@))
}

/// The command that an envelope asks for.
///
/// Each action needs all that its operation works on: a payload that lacks
/// the chat partner, the second user or the biography is malformed, like one
/// whose members have the wrong type.
pub open spec fn chat_command_of(action: Seq<char>, payload: JsonModel) -> Result<
    ChatCommandModel,
    FrameError,
> {
    if action == "new_message"@ {
        match new_message_of(payload) {
            Some(NewMessageModel { message, chat_partner: Some(chat_partner), reply }) => Ok(
                ChatCommandModel::NewMessage { chat_partner, message, reply },
            ),
            _ => Err(FrameError::Malformed),
        }
    } else if action == "edit_message"@ {
        match edit_message_of(payload) {
            Some(edit) => Ok(
                ChatCommandModel::EditMessage {
                    message_id: edit.message_id,
                    message: edit.message,
                },
            ),
            None => Err(FrameError::Malformed),
        }
    } else if action == "change_bio"@ {
        match change_bio_of(payload) {
            Some(Some(biography)) => Ok(ChatCommandModel::ChangeBio { biography }),
            _ => Err(FrameError::Malformed),
        }
    } else if action == "new_chat"@ {
        match new_chat_of(payload) {
            Some(Some(second_user_name)) => Ok(ChatCommandModel::NewChat { second_user_name }),
            _ => Err(FrameError::Malformed),
        }
    } else if action == "delete_message"@ {
        match delete_message_of(payload) {
            Some(id) => Ok(ChatCommandModel::DeleteMessage { id }),
            None => Err(FrameError::Malformed),
        }
    } else {
        Err(FrameError::UnknownAction)
    }
}

/// The command that the text of a frame asks for. A text that is no envelope
/// is malformed.
pub open spec fn chat_frame_command(text: Seq<char>) -> Result<ChatCommandModel, FrameError> {
    match envelope_of(parsed_json(text)) {
        Some((action, payload)) => chat_command_of(action, payload),
        None => Err(FrameError::Malformed),
    }
}

/// Whether `result` is what reading gave for a frame whose meaning is
/// `meaning`: the same error, or a command with the same value.
pub open spec fn reads_as(
    result: Result<ChatCommand, FrameError>,
    meaning: Result<ChatCommandModel, FrameError>,
) -> bool {
    match result {
        Ok(command) => meaning == Ok::<ChatCommandModel, FrameError>(command@),
        Err(error) => meaning == Err::<ChatCommandModel, FrameError>(error),
    }
}

impl NewMessage {
    /// Reads the payload of `new_message`.
    pub fn from_payload(payload: &serde_json::Value) -> (result: Option<NewMessage>)
        ensures
            match result {
                Some(read) => new_message_of(json_model(*payload)) == Some(read@),
                None => new_message_of(json_model(*payload)) is None,
            },
    {
        let message = match read_field(payload, "message").into_text() {
            Some(message) => message,
            None => {
                return None;
            },
        };
        let chat_partner = match read_field(payload, "chat_partner").into_optional_text() {
            Ok(chat_partner) => chat_partner,
            Err(_) => {
                return None;
            },
        };
        match read_field(payload, "reply").into_optional_id() {
            Ok(reply) => Some(NewMessage { message, chat_partner, reply }),
            Err(_) => None,
        }
    }
}

impl EditMessage {
    /// Reads the payload of `edit_message`.
    pub fn from_payload(payload: &serde_json::Value) -> (result: Option<EditMessage>)
        ensures
            match result {
                Some(read) => edit_message_of(json_model(*payload)) == Some(read@),
                None => edit_message_of(json_model(*payload)) is None,
            },
    {
        let message_id = match read_field(payload, "message_id").into_id() {
            Some(message_id) => message_id,
            None => {
                return None;
            },
        };
        match read_field(payload, "message").into_text() {
            Some(message) => Some(EditMessage { message_id, message }),
            None => None,
        }
    }
}

impl NewChat {
    /// Reads the payload of `new_chat`.
    pub fn from_payload(payload: &serde_json::Value) -> (result: Option<NewChat>)
        ensures
            match result {
                Some(read) => new_chat_of(json_model(*payload)) == Some(read@),
                None => new_chat_of(json_model(*payload)) is None,
            },
    {
        match read_field(payload, "second_user_name").into_optional_text() {
            Ok(second_user_name) => Some(NewChat { second_user_name }),
            Err(_) => None,
        }
    }
}

impl DeleteMessageRequest {
    /// Reads the payload of `delete_message`.
    pub fn from_payload(payload: &serde_json::Value) -> (result: Option<DeleteMessageRequest>)
        ensures
            match result {
                Some(read) => delete_message_of(json_model(*payload)) == Some(read@),
                None => delete_message_of(json_model(*payload)) is None,
            },
    {
        match read_field(payload, "id").into_id() {
            Some(id) => Some(DeleteMessageRequest { id }),
            None => None,
        }
    }
}

impl ChangeBio {
    /// Reads the payload of `change_bio`.
    pub fn from_payload(payload: &serde_json::Value) -> (result: Option<ChangeBio>)
        ensures
            match result {
                Some(read) => change_bio_of(json_model(*payload)) == Some(read@),
                None => change_bio_of(json_model(*payload)) is None,
            },
    {
        match read_field(payload, "biography").into_optional_text() {
            Ok(biography) => Some(ChangeBio { biography }),
            Err(_) => None,
        }
    }
}

impl ChatCommand {
    /// Reads the command of an envelope.
    pub fn from_envelope(envelope: &WebSocketMessage) -> (result: Result<ChatCommand, FrameError>)
        ensures
            reads_as(result, chat_command_of(envelope.action@, json_model(envelope.payload))),
    {
        let action = envelope.action.as_str();
        if *action == *"new_message" {
            match NewMessage::from_payload(&envelope.payload) {
                Some(NewMessage { message, chat_partner: Some(chat_partner), reply }) => Ok(
                    ChatCommand::NewMessage { chat_partner, message, reply },
                ),
                _ => Err(FrameError::Malformed),
            }
        } else if *action == *"edit_message" {
            match EditMessage::from_payload(&envelope.payload) {
                Some(edit) => Ok(
                    ChatCommand::EditMessage { message_id: edit.message_id, message: edit.message },
                ),
                None => Err(FrameError::Malformed),
            }
        } else if *action == *"change_bio" {
            match ChangeBio::from_payload(&envelope.payload) {
                Some(ChangeBio { biography: Some(biography) }) => Ok(
                    ChatCommand::ChangeBio { biography },
                ),
                _ => Err(FrameError::Malformed),
            }
        } else if *action == *"new_chat" {
            match NewChat::from_payload(&envelope.payload) {
                Some(NewChat { second_user_name: Some(second_user_name) }) => Ok(
                    ChatCommand::NewChat { second_user_name },
                ),
                _ => Err(FrameError::Malformed),
            }
        } else if *action == *"delete_message" {
            match DeleteMessageRequest::from_payload(&envelope.payload) {
                Some(request) => Ok(ChatCommand::DeleteMessage { id: request.id }),
                None => Err(FrameError::Malformed),
            }
        } else {
            Err(FrameError::UnknownAction)
        }
    }

    /// Reads the command of a text frame.
    pub fn from_text(text: &str) -> (result: Result<ChatCommand, FrameError>)
        ensures
            reads_as(result, chat_frame_command(text@)),
    {
        match WebSocketMessage::parse(text) {
            Some(envelope) => ChatCommand::from_envelope(&envelope),
            None => Err(FrameError::Malformed),
        }
    }
}

} // verus!
