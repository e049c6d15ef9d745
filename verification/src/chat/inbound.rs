//! The inbound side of a chat connection.
//!
//! A connection handles one command at a time. Handling is a dialogue with
//! the persistent store: the relay asks, the store answers, and the relay
//! decides what comes next. [`step`] is that decision. Whoever runs the
//! connection carries out the effects that a step returns, in their order,
//! and hands back the store's answer to each query.

use crate::chat::command::{chat_frame_command, reads_as, ChatCommand};
use crate::chat::model::{canonical, canonical_pair, Bio, Chat, ChatMessage, OutgoingMessage};
use crate::claims::Caller;
use crate::frame::{ErrorKind, FrameError};
use vstd::prelude::*;

verus! {

/// Why a command was refused or could not be completed. The caller is told
/// in an error frame; nobody else is.
#[derive(Debug, Clone, Copy, PartialEq, Eq, Structural)]
pub enum ChatComplaint {
    Malformed,
    UnknownAction,
    ChatLookupFailed,
    ChatCreationFailed,
    RepliedLookupFailed,
    ReplyAcrossChats,
    MessageNotSent,
    ChatNotUpdated,
    MessageNotEdited,
    BiographyNotUpdated,
    FriendshipUnknown,
    NotFriends,
    ChatExists,
    OwnChatsNotRefreshed,
    PartnerChatsNotRefreshed,
    NotYourMessage,
    MessageNotDeleted,
    MessageNotFound,
    MessageLookupFailed,
}

/// What the relay asks of the persistent store.
#[derive(Debug, Clone, PartialEq, Eq)]
pub enum ChatQuery {
    /// The id of the chat between two users, named in either order. Answered
    /// by [`ChatAnswer::ChatId`].
    FindChat { first_user: String, second_user: String },
    /// Store a chat between two users, named in canonical order. Answered by
    /// [`ChatAnswer::ChatRow`].
    CreateChat { first_user_name: String, second_user_name: String },
    /// The message with an id. Answered by [`ChatAnswer::Message`].
    FetchMessage { id: i32 },
    /// Store a message, stamped with the current time. Answered by
    /// [`ChatAnswer::Message`] with the stored row.
    InsertMessage {
        chat_id: i32,
        email: String,
        username: String,
        message: String,
        replied_user: Option<String>,
        replied_message: Option<String>,
    },
    /// Set the chat's time of last update to the current time. Answered by
    /// [`ChatAnswer::Done`].
    TouchChat { chat_id: i32 },
    /// Whether a message with the id exists that the user wrote. Answered by
    /// [`ChatAnswer::Flag`].
    MessageOwned { id: i32, username: String },
    /// Replace the text of a message and mark it edited. Answered by
    /// [`ChatAnswer::Done`].
    UpdateMessage { id: i32, message: String },
    /// Delete a message. Answered by [`ChatAnswer::Done`].
    DeleteMessage { id: i32 },
    /// Whether a friendship exists between two users, whoever asked for it
    /// and whatever its status. Answered by [`ChatAnswer::Flag`].
    FriendshipExists { first_user: String, second_user: String },
    /// The ids of the chats that a user takes part in. Answered by
    /// [`ChatAnswer::ChatIds`].
    ListChats { username: String },
    /// Replace a user's biography. Answered by [`ChatAnswer::Done`].
    UpdateBiography { username: String, biography: String },
    /// A user's biography. Answered by [`ChatAnswer::BioRow`].
    FetchBio { username: String },
}

/// What the persistent store answers.
#[derive(Debug, Clone, PartialEq, Eq)]
pub enum ChatAnswer {
    /// The store could not carry out the query.
    Failed,
    Done,
    Flag(bool),
    ChatId(Option<i32>),
    ChatRow(Chat),
    Message(Option<ChatMessage>),
    ChatIds(Vec<i32>),
    BioRow(Bio),
}

/// What a step asks the runner of the connection to do.
#[derive(Debug, Clone, PartialEq, Eq)]
pub enum ChatEffect {
    /// Send an error frame to this connection.
    Report(ChatComplaint),
    /// Put the query to the store and hand back its answer.
    Ask(ChatQuery),
    /// Replace the cached membership of the user with this display name.
    Refresh { username: String, chat_ids: Vec<i32> },
    /// Publish the event on the bus of the chat domain.
    Publish(OutgoingMessage),
    /// Remove the session of the caller's identity from the registry.
    Unregister,
    /// Stop reading frames.
    Stop,
}

/// A command in progress: what the relay waits for, and what it keeps to go
/// on with.
#[derive(Debug, Clone, PartialEq, Eq)]
pub enum Pending {
    FindingChat { message: String, chat_partner: String, reply: Option<i32> },
    CreatingChat { message: String, reply: Option<i32> },
    FetchingReplied { chat_id: i32, message: String },
    InsertingMessage { chat_id: i32 },
    TouchingChat { inserted: ChatMessage },
    CheckingOwner { message_id: i32, message: String },
    UpdatingMessage { message_id: i32 },
    RefetchingMessage,
    FetchingDoomed { id: i32 },
    DeletingMessage { id: i32 },
    CheckingFriendship { second_user_name: String },
    CheckingExisting { second_user_name: String },
    InsertingChat { second_user_name: String },
    ListingOwnChats { chat: Chat, second_user_name: String },
    ListingPartnerChats { chat: Chat, second_user_name: String },
    UpdatingBio,
    FetchingBio,
}

/// Where the inbound side of a connection stands.
#[derive(Debug, Clone, PartialEq, Eq)]
pub enum InboundState {
    /// Ready for the next command.
    Idle,
    /// In the middle of a command, waiting for the store.
    Busy(Pending),
    /// The connection reads no more frames.
    Stopped,
}

/// What happens on the inbound side of a connection.
#[derive(Debug, PartialEq, Eq)]
pub enum InboundInput {
    /// A text frame arrived and was read.
    Command(Result<ChatCommand, FrameError>),
    /// The store answered the query that is outstanding.
    Answer(ChatAnswer),
    /// The peer closed the socket.
    Close,
    /// A frame arrived that is neither text nor a close, or reading failed.
    Unrecognized,
}

/// The result of a step: the next state and the effects to carry out.
pub type Turn = (InboundState, Seq<ChatEffect>);

/// A command ends, and the caller is told why.
pub open spec fn refused(complaint: ChatComplaint) -> Turn {
    (InboundState::Idle, seq![ChatEffect::Report(complaint)])
}

/// The relay goes on waiting, for the answer to `query`.
pub open spec fn asking(pending: Pending, query: ChatQuery) -> Turn {
    (InboundState::Busy(pending), seq![ChatEffect::Ask(query)])
}

/// A command ends with an event.
pub open spec fn published(event: OutgoingMessage) -> Turn {
    (InboundState::Idle, seq![ChatEffect::Publish(event)])
}

/// The query that stores a message.
pub open spec fn insertion(
    caller: Caller,
    chat_id: i32,
    message: String,
    replied_user: Option<String>,
    replied_message: Option<String>,
) -> ChatQuery {
    ChatQuery::InsertMessage {
        chat_id,
        email: caller.email,
        username: caller.username,
        message,
        replied_user,
        replied_message,
    }
}

/// How `new_message` goes on once the chat is known: a reply first fetches
/// the message that it answers, anything else is stored at once.
pub open spec fn with_chat(caller: Caller, chat_id: i32, message: String, reply: Option<i32>) -> Turn {
    match reply {
        Some(replied) => asking(
            Pending::FetchingReplied { chat_id, message },
            ChatQuery::FetchMessage { id: replied },
        ),
        None => asking(
            Pending::InsertingMessage { chat_id },
            insertion(caller, chat_id, message, None, None),
        ),
    }
}

/// The query that stores the chat between two users.
pub open spec fn chat_creation(first: String, second: String) -> ChatQuery {
    ChatQuery::CreateChat {
        first_user_name: canonical(first, second).0,
        second_user_name: canonical(first, second).1,
    }
}

/// How the relay takes up a command. A frame that could not be read as a
/// command is answered with an error frame and otherwise ignored.
pub open spec fn started(caller: Caller, command: Result<ChatCommand, FrameError>) -> Turn {
    match command {
        Err(FrameError::Malformed) => refused(ChatComplaint::Malformed),
        Err(FrameError::UnknownAction) => refused(ChatComplaint::UnknownAction),
        Ok(ChatCommand::NewMessage { chat_partner, message, reply }) => asking(
            Pending::FindingChat { message, chat_partner, reply },
            ChatQuery::FindChat { first_user: caller.username, second_user: chat_partner },
        ),
        Ok(ChatCommand::EditMessage { message_id, message }) => asking(
            Pending::CheckingOwner { message_id, message },
            ChatQuery::MessageOwned { id: message_id, username: caller.username },
        ),
        Ok(ChatCommand::DeleteMessage { id }) => asking(
            Pending::FetchingDoomed { id },
            ChatQuery::FetchMessage { id },
        ),
        Ok(ChatCommand::NewChat { second_user_name }) => asking(
            Pending::CheckingFriendship { second_user_name },
            ChatQuery::FriendshipExists {
                first_user: caller.username,
                second_user: second_user_name,
            },
        ),
        Ok(ChatCommand::ChangeBio { biography }) => asking(
            Pending::UpdatingBio,
            ChatQuery::UpdateBiography { username: caller.username, biography },
        ),
    }
}

/// How the relay goes on with a command when the store has answered.
///
/// Each state expects one kind of answer. Any other answer, `Failed` above
/// all, counts as a failure of the store: the command ends and the caller is
/// told. Nothing that the command was to change is touched after that, with
/// two exceptions, where the change is already committed and only what
/// follows it failed: a message that was stored is published although the
/// chat's time of last update could not be set, and a chat that was stored is
/// published although a cached membership could not be refreshed.
pub open spec fn resumed(caller: Caller, pending: Pending, answer: ChatAnswer) -> Turn {
    match pending {
        Pending::FindingChat { message, chat_partner, reply } => match answer {
            ChatAnswer::ChatId(Some(chat_id)) => with_chat(caller, chat_id, message, reply),
            ChatAnswer::ChatId(None) => asking(
                Pending::CreatingChat { message, reply },
                chat_creation(caller.username, chat_partner),
            ),
            _ => refused(ChatComplaint::ChatLookupFailed),
        },
        Pending::CreatingChat { message, reply } => match answer {
            ChatAnswer::ChatRow(chat) => with_chat(caller, chat.id, message, reply),
            _ => refused(ChatComplaint::ChatCreationFailed),
        },
        Pending::FetchingReplied { chat_id, message } => match answer {
            ChatAnswer::Message(Some(replied)) => if replied.chat_id == Some(chat_id) {
                asking(
                    Pending::InsertingMessage { chat_id },
                    insertion(
                        caller,
                        chat_id,
                        message,
                        Some(replied.username),
                        Some(replied.message),
                    ),
                )
            } else {
                refused(ChatComplaint::ReplyAcrossChats)
            },
            _ => refused(ChatComplaint::RepliedLookupFailed),
        },
        Pending::InsertingMessage { chat_id } => match answer {
            ChatAnswer::Message(Some(inserted)) => asking(
                Pending::TouchingChat { inserted },
                ChatQuery::TouchChat { chat_id },
            ),
            _ => refused(ChatComplaint::MessageNotSent),
        },
        Pending::TouchingChat { inserted } => match answer {
            ChatAnswer::Done => published(OutgoingMessage::NewMessage(inserted)),
            _ => (
                InboundState::Idle,
                seq![
                    ChatEffect::Report(ChatComplaint::ChatNotUpdated),
                    ChatEffect::Publish(OutgoingMessage::NewMessage(inserted)),
                ],
            ),
        },
        Pending::CheckingOwner { message_id, message } => match answer {
            ChatAnswer::Flag(_) => asking(
                Pending::UpdatingMessage { message_id },
                ChatQuery::UpdateMessage { id: message_id, message },
            ),
            _ => refused(ChatComplaint::MessageNotEdited),
        },
        Pending::UpdatingMessage { message_id } => match answer {
            ChatAnswer::Done => asking(
                Pending::RefetchingMessage,
                ChatQuery::FetchMessage { id: message_id },
            ),
            _ => refused(ChatComplaint::MessageNotEdited),
        },
        Pending::RefetchingMessage => match answer {
            ChatAnswer::Message(Some(edited)) => published(OutgoingMessage::EditMessage(edited)),
            _ => refused(ChatComplaint::MessageNotSent),
        },
        Pending::FetchingDoomed { id } => match answer {
            ChatAnswer::Message(Some(doomed)) => if doomed.username@ == caller.username@ {
                asking(Pending::DeletingMessage { id }, ChatQuery::DeleteMessage { id })
            } else {
                refused(ChatComplaint::NotYourMessage)
            },
            ChatAnswer::Message(None) => refused(ChatComplaint::MessageNotFound),
            _ => refused(ChatComplaint::MessageLookupFailed),
        },
        Pending::DeletingMessage { id } => match answer {
            ChatAnswer::Done => published(OutgoingMessage::Delete { message_id: id }),
            _ => refused(ChatComplaint::MessageNotDeleted),
        },
        Pending::CheckingFriendship { second_user_name } => match answer {
            ChatAnswer::Flag(true) => asking(
                Pending::CheckingExisting { second_user_name },
                ChatQuery::FindChat { first_user: caller.username, second_user: second_user_name },
            ),
            ChatAnswer::Flag(false) => refused(ChatComplaint::NotFriends),
            _ => (
                InboundState::Idle,
                seq![
                    ChatEffect::Report(ChatComplaint::FriendshipUnknown),
                    ChatEffect::Report(ChatComplaint::NotFriends),
                ],
            ),
        },
        Pending::CheckingExisting { second_user_name } => match answer {
            ChatAnswer::ChatId(None) => asking(
                Pending::InsertingChat { second_user_name },
                chat_creation(caller.username, second_user_name),
            ),
            ChatAnswer::ChatId(Some(_)) => refused(ChatComplaint::ChatExists),
            _ => refused(ChatComplaint::ChatLookupFailed),
        },
        Pending::InsertingChat { second_user_name } => match answer {
            ChatAnswer::ChatRow(chat) => asking(
                Pending::ListingOwnChats { chat, second_user_name },
                ChatQuery::ListChats { username: caller.username },
            ),
            _ => refused(ChatComplaint::ChatCreationFailed),
        },
        Pending::ListingOwnChats { chat, second_user_name } => (
            InboundState::Busy(Pending::ListingPartnerChats { chat, second_user_name }),
            seq![
                match answer {
                    ChatAnswer::ChatIds(chat_ids) => ChatEffect::Refresh {
                        username: caller.username,
                        chat_ids,
                    },
                    _ => ChatEffect::Report(ChatComplaint::OwnChatsNotRefreshed),
                },
                ChatEffect::Ask(ChatQuery::ListChats { username: second_user_name }),
            ],
        ),
        Pending::ListingPartnerChats { chat, second_user_name } => (
            InboundState::Idle,
            seq![
                match answer {
                    ChatAnswer::ChatIds(chat_ids) => ChatEffect::Refresh {
                        username: second_user_name,
                        chat_ids,
                    },
                    _ => ChatEffect::Report(ChatComplaint::PartnerChatsNotRefreshed),
                },
                ChatEffect::Publish(OutgoingMessage::NewChat(chat)),
            ],
        ),
        Pending::UpdatingBio => match answer {
            ChatAnswer::Done => asking(
                Pending::FetchingBio,
                ChatQuery::FetchBio { username: caller.username },
            ),
            _ => refused(ChatComplaint::BiographyNotUpdated),
        },
        Pending::FetchingBio => match answer {
            ChatAnswer::BioRow(bio) => published(OutgoingMessage::ChangeBio(bio)),
            _ => refused(ChatComplaint::MessageNotSent),
        },
    }
}

/// The end of the inbound side: the session leaves the registry and no more
/// frames are read.
pub open spec fn closed() -> Turn {
    (InboundState::Stopped, seq![ChatEffect::Unregister, ChatEffect::Stop])
}

/// One step of the inbound side.
///
/// A connection that has stopped stays stopped. A close, or a frame that the
/// relay does not recognize, stops the connection whatever it was doing.
/// Otherwise a command is taken up when the connection is idle, an answer
/// continues the command in progress, and what comes out of turn (a command
/// while another is in progress, an answer that nothing waits for) changes
/// nothing.
pub open spec fn stepped(caller: Caller, state: InboundState, input: InboundInput) -> Turn {
    match state {
        InboundState::Stopped => (InboundState::Stopped, Seq::empty()),
        InboundState::Idle => match input {
            InboundInput::Command(command) => started(caller, command),
            InboundInput::Answer(_) => (InboundState::Idle, Seq::empty()),
            InboundInput::Close => closed(),
            InboundInput::Unrecognized => closed(),
        },
        InboundState::Busy(pending) => match input {
            InboundInput::Command(_) => (InboundState::Busy(pending), Seq::empty()),
            InboundInput::Answer(answer) => resumed(caller, pending, answer),
            InboundInput::Close => closed(),
            InboundInput::Unrecognized => closed(),
        },
    }
}

impl ChatComplaint {
    /// The kind of error that the complaint tells of.
    pub open spec fn kind(self) -> ErrorKind {
        match self {
            ChatComplaint::Malformed => ErrorKind::Validation,
            ChatComplaint::UnknownAction => ErrorKind::Validation,
            ChatComplaint::MessageNotFound => ErrorKind::Validation,
            ChatComplaint::ReplyAcrossChats => ErrorKind::Authorization,
            ChatComplaint::NotFriends => ErrorKind::Authorization,
            ChatComplaint::ChatExists => ErrorKind::Authorization,
            ChatComplaint::NotYourMessage => ErrorKind::Authorization,
            _ => ErrorKind::Persistence,
        }
    }

    /// The kind of error that the complaint tells of.
    pub fn error_kind(&self) -> (kind: ErrorKind)
        ensures
            kind == self.kind(),
    {
        match self {
            ChatComplaint::Malformed => ErrorKind::Validation,
            ChatComplaint::UnknownAction => ErrorKind::Validation,
            ChatComplaint::MessageNotFound => ErrorKind::Validation,
            ChatComplaint::ReplyAcrossChats => ErrorKind::Authorization,
            ChatComplaint::NotFriends => ErrorKind::Authorization,
            ChatComplaint::ChatExists => ErrorKind::Authorization,
            ChatComplaint::NotYourMessage => ErrorKind::Authorization,
            _ => ErrorKind::Persistence,
        }
    }

    /// The words of the error frame.
    pub open spec fn text(self) -> Seq<char> {
        match self {
            ChatComplaint::Malformed => "Malformed payload"@,
            ChatComplaint::UnknownAction => "Unknown action"@,
            ChatComplaint::ChatLookupFailed => "Error checking/creating chat"@,
            ChatComplaint::ChatCreationFailed => "Error creating chat"@,
            ChatComplaint::RepliedLookupFailed => "Error selecting replied message chat id"@,
            ChatComplaint::ReplyAcrossChats => "You can not reply a message from other chat"@,
            ChatComplaint::MessageNotSent => "Error sending message"@,
            ChatComplaint::ChatNotUpdated => "Error updating chat"@,
            ChatComplaint::MessageNotEdited => "Error editing message"@,
            ChatComplaint::BiographyNotUpdated => "Error updating biography"@,
            ChatComplaint::FriendshipUnknown => "You can't send message"@,
            ChatComplaint::NotFriends => "You can't create chat"@,
            ChatComplaint::ChatExists => "Chat already exists"@,
            ChatComplaint::OwnChatsNotRefreshed => "Failed to update user chats"@,
            ChatComplaint::PartnerChatsNotRefreshed => "Failed to update partner chats"@,
            ChatComplaint::NotYourMessage => "You can only delete your own messages"@,
            ChatComplaint::MessageNotDeleted => "Error deleting message"@,
            ChatComplaint::MessageNotFound => "Message not found"@,
            ChatComplaint::MessageLookupFailed => "Error fetching message"@,
        }
    }

    /// The words of the error frame.
    pub fn message(&self) -> (words: &'static str)
        ensures
            words@ == self.text(),
    {
        match self {
            ChatComplaint::Malformed => "Malformed payload",
            ChatComplaint::UnknownAction => "Unknown action",
            ChatComplaint::ChatLookupFailed => "Error checking/creating chat",
            ChatComplaint::ChatCreationFailed => "Error creating chat",
            ChatComplaint::RepliedLookupFailed => "Error selecting replied message chat id",
            ChatComplaint::ReplyAcrossChats => "You can not reply a message from other chat",
            ChatComplaint::MessageNotSent => "Error sending message",
            ChatComplaint::ChatNotUpdated => "Error updating chat",
            ChatComplaint::MessageNotEdited => "Error editing message",
            ChatComplaint::BiographyNotUpdated => "Error updating biography",
            ChatComplaint::FriendshipUnknown => "You can't send message",
            ChatComplaint::NotFriends => "You can't create chat",
            ChatComplaint::ChatExists => "Chat already exists",
            ChatComplaint::OwnChatsNotRefreshed => "Failed to update user chats",
            ChatComplaint::PartnerChatsNotRefreshed => "Failed to update partner chats",
            ChatComplaint::NotYourMessage => "You can only delete your own messages",
            ChatComplaint::MessageNotDeleted => "Error deleting message",
            ChatComplaint::MessageNotFound => "Message not found",
            ChatComplaint::MessageLookupFailed => "Error fetching message",
        }
    }
}

/// Whether a turn, as the program holds it, is the turn `meant`.
pub open spec fn is_turn(turn: (InboundState, Vec<ChatEffect>), meant: Turn) -> bool {
    turn.0 == meant.0 && turn.1@ =~= meant.1
}

fn one(effect: ChatEffect) -> (effects: Vec<ChatEffect>)
    ensures
        effects@ == seq![effect],
{
    let mut effects = Vec::new();
    effects.push(effect);
    effects
}

fn two(first: ChatEffect, second: ChatEffect) -> (effects: Vec<ChatEffect>)
    ensures
        effects@ == seq![first, second],
{
    let mut effects = Vec::new();
    effects.push(first);
    effects.push(second);
    effects
}

fn refuse(complaint: ChatComplaint) -> (turn: (InboundState, Vec<ChatEffect>))
    ensures
        is_turn(turn, refused(complaint)),
{
    (InboundState::Idle, one(ChatEffect::Report(complaint)))
}

fn ask(pending: Pending, query: ChatQuery) -> (turn: (InboundState, Vec<ChatEffect>))
    ensures
        is_turn(turn, asking(pending, query)),
{
    (InboundState::Busy(pending), one(ChatEffect::Ask(query)))
}

fn publish(event: OutgoingMessage) -> (turn: (InboundState, Vec<ChatEffect>))
    ensures
        is_turn(turn, published(event)),
{
    (InboundState::Idle, one(ChatEffect::Publish(event)))
}

fn insert(
    caller: &Caller,
    chat_id: i32,
    message: String,
    replied_user: Option<String>,
    replied_message: Option<String>,
) -> (query: ChatQuery)
    ensures
        query == insertion(*caller, chat_id, message, replied_user, replied_message),
{
    ChatQuery::InsertMessage {
        chat_id,
        email: caller.email.clone(),
        username: caller.username.clone(),
        message,
        replied_user,
        replied_message,
    }
}

fn go_on_with_chat(caller: &Caller, chat_id: i32, message: String, reply: Option<i32>) -> (turn: (
    InboundState,
    Vec<ChatEffect>,
))
    ensures
        is_turn(turn, with_chat(*caller, chat_id, message, reply)),
{
    match reply {
        Some(replied) => ask(
            Pending::FetchingReplied { chat_id, message },
            ChatQuery::FetchMessage { id: replied },
        ),
        None => ask(
            Pending::InsertingMessage { chat_id },
            insert(caller, chat_id, message, None, None),
        ),
    }
}

fn create_chat(first: String, second: String) -> (query: ChatQuery)
    ensures
        query == chat_creation(first, second),
{
    let pair = canonical_pair(first, second);
    ChatQuery::CreateChat { first_user_name: pair.0, second_user_name: pair.1 }
}

/// Takes up a command on an idle connection.
pub fn start(caller: &Caller, command: Result<ChatCommand, FrameError>) -> (turn: (
    InboundState,
    Vec<ChatEffect>,
))
    ensures
        is_turn(turn, started(*caller, command)),
{
    match command {
        Err(FrameError::Malformed) => refuse(ChatComplaint::Malformed),
        Err(FrameError::UnknownAction) => refuse(ChatComplaint::UnknownAction),
        Ok(ChatCommand::NewMessage { chat_partner, message, reply }) => {
            let query = ChatQuery::FindChat {
                first_user: caller.username.clone(),
                second_user: chat_partner.clone(),
            };
            ask(Pending::FindingChat { message, chat_partner, reply }, query)
        },
        Ok(ChatCommand::EditMessage { message_id, message }) => ask(
            Pending::CheckingOwner { message_id, message },
            ChatQuery::MessageOwned { id: message_id, username: caller.username.clone() },
        ),
        Ok(ChatCommand::DeleteMessage { id }) => ask(
            Pending::FetchingDoomed { id },
            ChatQuery::FetchMessage { id },
        ),
        Ok(ChatCommand::NewChat { second_user_name }) => {
            let query = ChatQuery::FriendshipExists {
                first_user: caller.username.clone(),
                second_user: second_user_name.clone(),
            };
            ask(Pending::CheckingFriendship { second_user_name }, query)
        },
        Ok(ChatCommand::ChangeBio { biography }) => ask(
            Pending::UpdatingBio,
            ChatQuery::UpdateBiography { username: caller.username.clone(), biography },
        ),
    }
}

/// Goes on with the command in progress when the store has answered.
pub fn resume(caller: &Caller, pending: Pending, answer: ChatAnswer) -> (turn: (
    InboundState,
    Vec<ChatEffect>,
))
    ensures
        is_turn(turn, resumed(*caller, pending, answer)),
{
    match pending {
        Pending::FindingChat { message, chat_partner, reply } => match answer {
            ChatAnswer::ChatId(Some(chat_id)) => go_on_with_chat(caller, chat_id, message, reply),
            ChatAnswer::ChatId(None) => ask(
                Pending::CreatingChat { message, reply },
                create_chat(caller.username.clone(), chat_partner),
            ),
            _ => refuse(ChatComplaint::ChatLookupFailed),
        },
        Pending::CreatingChat { message, reply } => match answer {
            ChatAnswer::ChatRow(chat) => go_on_with_chat(caller, chat.id, message, reply),
            _ => refuse(ChatComplaint::ChatCreationFailed),
        },
        Pending::FetchingReplied { chat_id, message } => match answer {
            ChatAnswer::Message(Some(replied)) => {
                let same_chat = match replied.chat_id {
                    Some(found) => found == chat_id,
                    None => false,
                };
                if same_chat {
                    ask(
                        Pending::InsertingMessage { chat_id },
                        insert(
                            caller,
                            chat_id,
                            message,
                            Some(replied.username),
                            Some(replied.message),
                        ),
                    )
                } else {
                    refuse(ChatComplaint::ReplyAcrossChats)
                }
            },
            _ => refuse(ChatComplaint::RepliedLookupFailed),
        },
        Pending::InsertingMessage { chat_id } => match answer {
            ChatAnswer::Message(Some(inserted)) => ask(
                Pending::TouchingChat { inserted },
                ChatQuery::TouchChat { chat_id },
            ),
            _ => refuse(ChatComplaint::MessageNotSent),
        },
        Pending::TouchingChat { inserted } => match answer {
            ChatAnswer::Done => publish(OutgoingMessage::NewMessage(inserted)),
            _ => (
                InboundState::Idle,
                two(
                    ChatEffect::Report(ChatComplaint::ChatNotUpdated),
                    ChatEffect::Publish(OutgoingMessage::NewMessage(inserted)),
                ),
            ),
        },
        Pending::CheckingOwner { message_id, message } => match answer {
            ChatAnswer::Flag(_) => ask(
                Pending::UpdatingMessage { message_id },
                ChatQuery::UpdateMessage { id: message_id, message },
            ),
            _ => refuse(ChatComplaint::MessageNotEdited),
        },
        Pending::UpdatingMessage { message_id } => match answer {
            ChatAnswer::Done => ask(
                Pending::RefetchingMessage,
                ChatQuery::FetchMessage { id: message_id },
            ),
            _ => refuse(ChatComplaint::MessageNotEdited),
        },
        Pending::RefetchingMessage => match answer {
            ChatAnswer::Message(Some(edited)) => publish(OutgoingMessage::EditMessage(edited)),
            _ => refuse(ChatComplaint::MessageNotSent),
        },
        Pending::FetchingDoomed { id } => match answer {
            ChatAnswer::Message(Some(doomed)) => {
                if doomed.username == caller.username {
                    ask(Pending::DeletingMessage { id }, ChatQuery::DeleteMessage { id })
                } else {
                    refuse(ChatComplaint::NotYourMessage)
                }
            },
            ChatAnswer::Message(None) => refuse(ChatComplaint::MessageNotFound),
            _ => refuse(ChatComplaint::MessageLookupFailed),
        },
        Pending::DeletingMessage { id } => match answer {
            ChatAnswer::Done => publish(OutgoingMessage::Delete { message_id: id }),
            _ => refuse(ChatComplaint::MessageNotDeleted),
        },
        Pending::CheckingFriendship { second_user_name } => match answer {
            ChatAnswer::Flag(true) => {
                let query = ChatQuery::FindChat {
                    first_user: caller.username.clone(),
                    second_user: second_user_name.clone(),
                };
                ask(Pending::CheckingExisting { second_user_name }, query)
            },
            ChatAnswer::Flag(false) => refuse(ChatComplaint::NotFriends),
            _ => (
                InboundState::Idle,
                two(
                    ChatEffect::Report(ChatComplaint::FriendshipUnknown),
                    ChatEffect::Report(ChatComplaint::NotFriends),
                ),
            ),
        },
        Pending::CheckingExisting { second_user_name } => match answer {
            ChatAnswer::ChatId(None) => {
                let query = create_chat(caller.username.clone(), second_user_name.clone());
                ask(Pending::InsertingChat { second_user_name }, query)
            },
            ChatAnswer::ChatId(Some(_)) => refuse(ChatComplaint::ChatExists),
            _ => refuse(ChatComplaint::ChatLookupFailed),
        },
        Pending::InsertingChat { second_user_name } => match answer {
            ChatAnswer::ChatRow(chat) => ask(
                Pending::ListingOwnChats { chat, second_user_name },
                ChatQuery::ListChats { username: caller.username.clone() },
            ),
            _ => refuse(ChatComplaint::ChatCreationFailed),
        },
        Pending::ListingOwnChats { chat, second_user_name } => {
            let first = match answer {
                ChatAnswer::ChatIds(chat_ids) => ChatEffect::Refresh {
                    username: caller.username.clone(),
                    chat_ids,
                },
                _ => ChatEffect::Report(ChatComplaint::OwnChatsNotRefreshed),
            };
            let second = ChatEffect::Ask(
                ChatQuery::ListChats { username: second_user_name.clone() },
            );
            (
                InboundState::Busy(Pending::ListingPartnerChats { chat, second_user_name }),
                two(first, second),
            )
        },
        Pending::ListingPartnerChats { chat, second_user_name } => {
            let first = match answer {
                ChatAnswer::ChatIds(chat_ids) => ChatEffect::Refresh {
                    username: second_user_name,
                    chat_ids,
                },
                _ => ChatEffect::Report(ChatComplaint::PartnerChatsNotRefreshed),
            };
            (InboundState::Idle, two(first, ChatEffect::Publish(OutgoingMessage::NewChat(chat))))
        },
        Pending::UpdatingBio => match answer {
            ChatAnswer::Done => ask(
                Pending::FetchingBio,
                ChatQuery::FetchBio { username: caller.username.clone() },
            ),
            _ => refuse(ChatComplaint::BiographyNotUpdated),
        },
        Pending::FetchingBio => match answer {
            ChatAnswer::BioRow(bio) => publish(OutgoingMessage::ChangeBio(bio)),
            _ => refuse(ChatComplaint::MessageNotSent),
        },
    }
}

/// Takes one step on the inbound side of a connection.
pub fn step(caller: &Caller, state: InboundState, input: InboundInput) -> (turn: (
    InboundState,
    Vec<ChatEffect>,
))
    ensures
        is_turn(turn, stepped(*caller, state, input)),
{
    match state {
        InboundState::Stopped => (InboundState::Stopped, Vec::new()),
        InboundState::Idle => match input {
            InboundInput::Command(command) => start(caller, command),
            InboundInput::Answer(_) => (InboundState::Idle, Vec::new()),
            InboundInput::Close => (
                InboundState::Stopped,
                two(ChatEffect::Unregister, ChatEffect::Stop),
            ),
            InboundInput::Unrecognized => (
                InboundState::Stopped,
                two(ChatEffect::Unregister, ChatEffect::Stop),
            ),
        },
        InboundState::Busy(pending) => match input {
            InboundInput::Command(_) => (InboundState::Busy(pending), Vec::new()),
            InboundInput::Answer(answer) => resume(caller, pending, answer),
            InboundInput::Close => (
                InboundState::Stopped,
                two(ChatEffect::Unregister, ChatEffect::Stop),
            ),
            InboundInput::Unrecognized => (
                InboundState::Stopped,
                two(ChatEffect::Unregister, ChatEffect::Stop),
            ),
        },
    }
}

/// Reads a text frame and takes the step that its command asks for.
pub fn on_text(caller: &Caller, state: InboundState, text: &str) -> (turn: (
    InboundState,
    Vec<ChatEffect>,
))
    ensures
        exists|command: Result<ChatCommand, FrameError>|
            reads_as(command, chat_frame_command(text@)) && is_turn(
                turn,
                #[trigger] stepped(*caller, state, InboundInput::Command(command)),
            ),
{
    let command = ChatCommand::from_text(text);
    let ghost read = command;
    let turn = step(caller, state, InboundInput::Command(command));
    assert(is_turn(turn, stepped(*caller, state, InboundInput::Command(read))));
    turn
}

/// Whether an effect asks the store to keep a message as a reply, and if so
/// in which chat.
pub open spec fn stores_reply(effect: ChatEffect) -> Option<i32> {
    match effect {
        ChatEffect::Ask(ChatQuery::InsertMessage { chat_id, replied_user: Some(_), .. }) => Some(
            chat_id,
        ),
        _ => None,
    }
}

/// Whether an effect publishes a new chat.
pub open spec fn announces_chat(effect: ChatEffect) -> bool {
    effect matches ChatEffect::Publish(OutgoingMessage::NewChat(_))
}

/// Whether an effect tells the caller of a refusal or a failure.
pub open spec fn is_report(effect: ChatEffect) -> bool {
    effect is Report
}

/// The stages of `new_chat` that come after the check for a friendship.
pub open spec fn past_friendship_check(pending: Pending) -> bool {
    pending is CheckingExisting || pending is InsertingChat || pending is ListingOwnChats
        || pending is ListingPartnerChats
}

/// A reply to a message of another chat is refused. The command ends with an
/// error frame for the caller: the store is asked for nothing more, so no
/// message is stored, and nothing is published.
pub proof fn lemma_reply_across_chats_is_refused(
    caller: Caller,
    chat_id: i32,
    message: String,
    replied: ChatMessage,
)
    requires
        replied.chat_id != Some(chat_id),
    ensures
        resumed(
            caller,
            Pending::FetchingReplied { chat_id, message },
            ChatAnswer::Message(Some(replied)),
        ) == refused(ChatComplaint::ReplyAcrossChats),
{
}

/// Whenever the relay asks the store to keep a reply, the message that it
/// answers was found in the very chat in which the reply is kept. No command
/// starts with such a query.
pub proof fn lemma_replies_stay_in_their_chat(
    caller: Caller,
    pending: Pending,
    answer: ChatAnswer,
    command: Result<ChatCommand, FrameError>,
    position: int,
)
    ensures
        0 <= position < started(caller, command).1.len() ==> stores_reply(
            started(caller, command).1[position],
        ) is None,
        0 <= position < resumed(caller, pending, answer).1.len() ==> (forall|chat_id: i32|
            stores_reply(resumed(caller, pending, answer).1[position]) == Some(chat_id) ==> {
                &&& pending matches Pending::FetchingReplied { chat_id: target, .. }
                &&& target == chat_id
                &&& answer matches ChatAnswer::Message(Some(replied))
                &&& replied.chat_id == Some(chat_id)
            }),
{
}

/// Without the store's word that a friendship exists, `new_chat` ends where
/// it asked: the caller is told, no chat is stored and none is announced.
pub proof fn lemma_new_chat_needs_friendship(
    caller: Caller,
    second_user_name: String,
    answer: ChatAnswer,
)
    requires
        answer != ChatAnswer::Flag(true),
    ensures
        resumed(caller, Pending::CheckingFriendship { second_user_name }, answer).0
            == InboundState::Idle,
        forall|position: int|
            0 <= position < resumed(
                caller,
                Pending::CheckingFriendship { second_user_name },
                answer,
            ).1.len() ==> is_report(
                #[trigger] resumed(
                    caller,
                    Pending::CheckingFriendship { second_user_name },
                    answer,
                ).1[position],
            ),
        resumed(
            caller,
            Pending::CheckingFriendship { second_user_name },
            ChatAnswer::Flag(false),
        ) == refused(ChatComplaint::NotFriends),
{
}

/// A new chat is announced only at the end of `new_chat`, and the way there
/// leads through the store's word that the two users are friends: the stages
/// after the check are entered from the check on that word, or from the stage
/// before, and no command starts in one of them.
pub proof fn lemma_new_chat_only_between_friends(
    caller: Caller,
    pending: Pending,
    answer: ChatAnswer,
    command: Result<ChatCommand, FrameError>,
    position: int,
)
    ensures
        0 <= position < resumed(caller, pending, answer).1.len() && announces_chat(
            resumed(caller, pending, answer).1[position],
        ) ==> pending is ListingPartnerChats,
        resumed(caller, pending, answer).0 matches InboundState::Busy(next)
            && past_friendship_check(next) ==> past_friendship_check(pending) || (pending
            is CheckingFriendship && answer == ChatAnswer::Flag(true)),
        !(started(caller, command).0 matches InboundState::Busy(next) && past_friendship_check(
            next,
        )),
        0 <= position < started(caller, command).1.len() ==> !announces_chat(
            started(caller, command).1[position],
        ),
{
}

/// The stages of `new_message`.
pub open spec fn sending_message(pending: Pending) -> bool {
    pending is FindingChat || pending is CreatingChat || pending is FetchingReplied || pending
        is InsertingMessage || pending is TouchingChat
}

/// Whether an effect asks the store whether two users are friends.
pub open spec fn asks_for_friendship(effect: ChatEffect) -> bool {
    effect matches ChatEffect::Ask(ChatQuery::FriendshipExists { .. })
}

/// A message needs no friendship. From the frame to the event, `new_message`
/// stays within its own stages, and in none of them the store is asked
/// whether the two users are friends.
pub proof fn lemma_new_message_needs_no_friendship(
    caller: Caller,
    chat_partner: String,
    message: String,
    reply: Option<i32>,
    pending: Pending,
    answer: ChatAnswer,
    position: int,
)
    requires
        sending_message(pending),
    ensures
        ({
            let turn = started(caller, Ok(ChatCommand::NewMessage { chat_partner, message, reply }));
            &&& turn.0 matches InboundState::Busy(next) && sending_message(next)
            &&& 0 <= position < turn.1.len() ==> !asks_for_friendship(turn.1[position])
        }),
        ({
            let turn = resumed(caller, pending, answer);
            &&& turn.0 matches InboundState::Busy(next) ==> sending_message(next)
            &&& 0 <= position < turn.1.len() ==> !asks_for_friendship(turn.1[position])
        }),
{
}

/// Whether an effect tells the caller that its command was refused: for its
/// shape or by the rules, not because the store failed.
pub open spec fn is_refusal(effect: ChatEffect) -> bool {
    effect matches ChatEffect::Report(complaint) && complaint.kind() != ErrorKind::Persistence
}

/// A command that is refused has no other effect. In a turn that tells the
/// caller of a refusal every effect is an error frame, and the command is
/// over: the store is asked for nothing, no session is touched and nothing is
/// published.
pub proof fn lemma_refusal_changes_nothing(
    caller: Caller,
    pending: Pending,
    answer: ChatAnswer,
    command: Result<ChatCommand, FrameError>,
    position: int,
    other: int,
)
    ensures
        ({
            let turn = resumed(caller, pending, answer);
            0 <= position < turn.1.len() && 0 <= other < turn.1.len() && is_refusal(
                turn.1[position],
            ) ==> turn.0 == InboundState::Idle && is_report(turn.1[other])
        }),
        ({
            let turn = started(caller, command);
            0 <= position < turn.1.len() && 0 <= other < turn.1.len() && is_refusal(
                turn.1[position],
            ) ==> turn.0 == InboundState::Idle && is_report(turn.1[other])
        }),
{
}

/// A connection that has stopped takes no further step, and a close stops a
/// connection from any other state, taking its session out of the registry.
pub proof fn lemma_close_is_final(caller: Caller, state: InboundState, input: InboundInput)
    ensures
        stepped(caller, InboundState::Stopped, input) == (
            InboundState::Stopped,
            Seq::<ChatEffect>::empty(),
        ),
        !(state is Stopped) ==> stepped(caller, state, InboundInput::Close) == closed(),
        !(state is Stopped) ==> stepped(caller, state, InboundInput::Unrecognized) == closed(),
{
}

} // verus!
