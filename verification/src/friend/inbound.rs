//! The inbound side of a friend connection.
//!
//! As in the chat domain, a connection handles one command at a time in a
//! dialogue with the persistent store, and [`step`] decides what comes next.
//! The rules of the domain are decided here, on the rows that the store hands
//! over: who may accept a request, who may cancel one, and when a request may
//! be made at all.

use crate::claims::Caller;
use crate::frame::{ErrorKind, FrameError};
use crate::friend::command::{friend_frame_command, reads_as, FriendCommand};
use crate::friend::model::{CancelFriendRequest, FriendAction, FriendRequestStatus, Friends};
use vstd::prelude::*;

verus! {

/// Why a command was refused or could not be completed. The caller is told
/// in an error frame; nobody else is.
#[derive(Debug, Clone, Copy, PartialEq, Eq, Structural)]
pub enum FriendComplaint {
    Malformed,
    UnknownAction,
    UserLookupFailed,
    FriendshipLookupFailed,
    SelfRequest,
    AlreadyRequested,
    UserNotFound,
    RequestNotCreated,
    RequestLookupFailed,
    RequestNotFound,
    NotYourRequest,
    FriendNotDeleted,
    ReceiverLookupFailed,
    SenderUnknown,
    NotReceiver,
    RequestNotAccepted,
}

/// What the relay asks of the persistent store.
#[derive(Debug, Clone, PartialEq, Eq)]
pub enum FriendQuery {
    /// Whether a user with the name exists. Answered by
    /// [`FriendAnswer::Flag`].
    UserExists { username: String },
    /// Whether a friendship exists between two users, whoever asked for it
    /// and whatever its status. Answered by [`FriendAnswer::Flag`].
    FriendshipExists { first_user: String, second_user: String },
    /// Store a friendship with the status `pending`. Answered by
    /// [`FriendAnswer::FriendRow`].
    InsertRequest { sender_username: String, receiver_username: String },
    /// The friendship with an id. Answered by [`FriendAnswer::Friendship`].
    FetchFriendship { id: i32 },
    /// Set the status of a friendship to `accepted`. Answered by
    /// [`FriendAnswer::FriendRow`] with the row as it then stands.
    AcceptRequest { id: i32 },
    /// Delete a friendship. Answered by [`FriendAnswer::Done`].
    DeleteFriendship { id: i32 },
}

/// What the persistent store answers.
#[derive(Debug, Clone, PartialEq, Eq)]
pub enum FriendAnswer {
    /// The store could not carry out the query.
    Failed,
    Done,
    Flag(bool),
    FriendRow(Friends),
    Friendship(Option<Friends>),
}

/// What a step asks the runner of the connection to do.
#[derive(Debug, Clone, PartialEq, Eq)]
pub enum FriendEffect {
    /// Send an error frame to this connection.
    Report(FriendComplaint),
    /// Put the query to the store and hand back its answer.
    Ask(FriendQuery),
    /// Publish the event on the bus of the friend domain.
    Publish(FriendAction),
    /// Remove the session of the caller's identity from the registry.
    Unregister,
    /// Stop reading frames.
    Stop,
}

/// A command in progress: what the relay waits for, and what it keeps to go
/// on with.
#[derive(Debug, Clone, PartialEq, Eq)]
pub enum Pending {
    CheckingUser { receiver_username: String },
    CheckingFriendship { receiver_username: String, user_exists: bool },
    InsertingRequest,
    FetchingToAccept { friend_id: i32 },
    Accepting,
    FetchingToCancel { friend_req_id: i32 },
    Deleting { friend_req_id: i32 },
}

/// Where the inbound side of a connection stands.
#[derive(Debug, Clone, PartialEq, Eq)]
pub enum InboundState {
    /// Ready for the next command.
    Idle,
    /// In the middle of a command, waiting for the store.
    Busy(Pending),
    /// The connection reads no more frames.
    Stopped,
}

/// What happens on the inbound side of a connection.
#[derive(Debug, PartialEq, Eq)]
pub enum InboundInput {
    /// A text frame arrived and was read.
    Command(Result<FriendCommand, FrameError>),
    /// The store answered the query that is outstanding.
    Answer(FriendAnswer),
    /// The peer closed the socket.
    Close,
    /// A frame arrived that is neither text nor a close, or reading failed.
    Unrecognized,
}

/// The result of a step: the next state and the effects to carry out.
pub type Turn = (InboundState, Seq<FriendEffect>);

/// A command ends, and the caller is told why.
pub open spec fn refused(complaint: FriendComplaint) -> Turn {
    (InboundState::Idle, seq![FriendEffect::Report(complaint)])
}

/// The relay goes on waiting, for the answer to `query`.
pub open spec fn asking(pending: Pending, query: FriendQuery) -> Turn {
    (InboundState::Busy(pending), seq![FriendEffect::Ask(query)])
}

/// A command ends with an event.
pub open spec fn published(event: FriendAction) -> Turn {
    (InboundState::Idle, seq![FriendEffect::Publish(event)])
}

/// Whether `username` sent or received the request for a friendship.
pub open spec fn is_party(friendship: Friends, username: Seq<char>) -> bool {
    friendship.sender_username@ == username || friendship.receiver_username@ == username
}

/// The event that tells of an accepted request, made from the row as it
/// stands after the change. A row without an id tells of nothing.
pub open spec fn acceptance(accepted: Friends) -> Option<FriendAction> {
    match accepted.id {
        Some(id) => Some(
            FriendAction::Accept(
                FriendRequestStatus {
                    id,
                    sender_username: accepted.sender_username,
                    receiver_username: accepted.receiver_username,
                    status: accepted.status,
                },
            ),
        ),
        None => None,
    }
}

/// How the relay takes up a command. A frame that could not be read as a
/// command is answered with an error frame and otherwise ignored.
pub open spec fn started(caller: Caller, command: Result<FriendCommand, FrameError>) -> Turn {
    match command {
        Err(FrameError::Malformed) => refused(FriendComplaint::Malformed),
        Err(FrameError::UnknownAction) => refused(FriendComplaint::UnknownAction),
        Ok(FriendCommand::SendRequest { receiver_username }) => asking(
            Pending::CheckingUser { receiver_username },
            FriendQuery::UserExists { username: receiver_username },
        ),
        Ok(FriendCommand::Accept { friend_id }) => asking(
            Pending::FetchingToAccept { friend_id },
            FriendQuery::FetchFriendship { id: friend_id },
        ),
        Ok(FriendCommand::Cancel { friend_req_id }) => asking(
            Pending::FetchingToCancel { friend_req_id },
            FriendQuery::FetchFriendship { id: friend_req_id },
        ),
    }
}

/// How the relay goes on with a command when the store has answered.
///
/// Each state expects one kind of answer. Any other answer, `Failed` above
/// all, counts as a failure of the store: the command ends, the caller is
/// told, and nothing is changed.
///
/// A request is refused where the caller asks for its own friendship, where
/// a friendship between the two exists already, and where the receiver does
/// not exist; the first reason that holds, in this order, is the one given.
/// Only the receiver of a request may accept it, and only its sender or its
/// receiver may cancel it.
pub open spec fn resumed(caller: Caller, pending: Pending, answer: FriendAnswer) -> Turn {
    match pending {
        Pending::CheckingUser { receiver_username } => match answer {
            FriendAnswer::Flag(user_exists) => asking(
                Pending::CheckingFriendship { receiver_username, user_exists },
                FriendQuery::FriendshipExists {
                    first_user: caller.username,
                    second_user: receiver_username,
                },
            ),
            _ => refused(FriendComplaint::UserLookupFailed),
        },
        Pending::CheckingFriendship { receiver_username, user_exists } => match answer {
            FriendAnswer::Flag(already) => if receiver_username@ == caller.username@ {
                refused(FriendComplaint::SelfRequest)
            } else if already {
                refused(FriendComplaint::AlreadyRequested)
            } else if !user_exists {
                refused(FriendComplaint::UserNotFound)
            } else {
                asking(
                    Pending::InsertingRequest,
                    FriendQuery::InsertRequest {
                        sender_username: caller.username,
                        receiver_username,
                    },
                )
            },
            _ => refused(FriendComplaint::FriendshipLookupFailed),
        },
        Pending::InsertingRequest => match answer {
            FriendAnswer::FriendRow(friendship) => published(FriendAction::SendRequest(friendship)),
            _ => refused(FriendComplaint::RequestNotCreated),
        },
        Pending::FetchingToAccept { friend_id } => match answer {
            FriendAnswer::Friendship(Some(friendship)) => if friendship.receiver_username@
                == caller.username@ {
                asking(Pending::Accepting, FriendQuery::AcceptRequest { id: friend_id })
            } else {
                refused(FriendComplaint::NotReceiver)
            },
            FriendAnswer::Friendship(None) => refused(FriendComplaint::SenderUnknown),
            _ => refused(FriendComplaint::ReceiverLookupFailed),
        },
        Pending::Accepting => match answer {
            FriendAnswer::FriendRow(accepted) => match acceptance(accepted) {
                Some(event) => published(event),
                None => refused(FriendComplaint::RequestNotAccepted),
            },
            _ => refused(FriendComplaint::RequestNotAccepted),
        },
        Pending::FetchingToCancel { friend_req_id } => match answer {
            FriendAnswer::Friendship(Some(friendship)) => if is_party(
                friendship,
                caller.username@,
            ) {
                asking(
                    Pending::Deleting { friend_req_id },
                    FriendQuery::DeleteFriendship { id: friend_req_id },
                )
            } else {
                refused(FriendComplaint::NotYourRequest)
            },
            FriendAnswer::Friendship(None) => refused(FriendComplaint::RequestNotFound),
            _ => refused(FriendComplaint::RequestLookupFailed),
        },
        Pending::Deleting { friend_req_id } => match answer {
            FriendAnswer::Done => published(
                FriendAction::Cancel(CancelFriendRequest { friend_req_id }),
            ),
            _ => refused(FriendComplaint::FriendNotDeleted),
        },
    }
}

/// The end of the inbound side: the session leaves the registry and no more
/// frames are read.
pub open spec fn closed() -> Turn {
    (InboundState::Stopped, seq![FriendEffect::Unregister, FriendEffect::Stop])
}

/// One step of the inbound side.
///
/// A connection that has stopped stays stopped. A close, or a frame that the
/// relay does not recognize, stops the connection whatever it was doing.
/// Otherwise a command is taken up when the connection is idle, an answer
/// continues the command in progress, and what comes out of turn (a command
/// while another is in progress, an answer that nothing waits for) changes
/// nothing.
pub open spec fn stepped(caller: Caller, state: InboundState, input: InboundInput) -> Turn {
    match state {
        InboundState::Stopped => (InboundState::Stopped, Seq::empty()),
        InboundState::Idle => match input {
            InboundInput::Command(command) => started(caller, command),
            InboundInput::Answer(_) => (InboundState::Idle, Seq::empty()),
            InboundInput::Close => closed(),
            InboundInput::Unrecognized => closed(),
        },
        InboundState::Busy(pending) => match input {
            InboundInput::Command(_) => (InboundState::Busy(pending), Seq::empty()),
            InboundInput::Answer(answer) => resumed(caller, pending, answer),
            InboundInput::Close => closed(),
            InboundInput::Unrecognized => closed(),
        },
    }
}

impl FriendComplaint {
    /// The kind of error that the complaint tells of.
    pub open spec fn kind(self) -> ErrorKind {
        match self {
            FriendComplaint::Malformed => ErrorKind::Validation,
            FriendComplaint::UnknownAction => ErrorKind::Validation,
            FriendComplaint::UserNotFound => ErrorKind::Validation,
            FriendComplaint::RequestNotFound => ErrorKind::Validation,
            FriendComplaint::SenderUnknown => ErrorKind::Validation,
            FriendComplaint::SelfRequest => ErrorKind::Authorization,
            FriendComplaint::AlreadyRequested => ErrorKind::Authorization,
            FriendComplaint::NotYourRequest => ErrorKind::Authorization,
            FriendComplaint::NotReceiver => ErrorKind::Authorization,
            _ => ErrorKind::Persistence,
        }
    }

    /// The kind of error that the complaint tells of.
    pub fn error_kind(&self) -> (kind: ErrorKind)
        ensures
            kind == self.kind(),
    {
        match self {
            FriendComplaint::Malformed => ErrorKind::Validation,
            FriendComplaint::UnknownAction => ErrorKind::Validation,
            FriendComplaint::UserNotFound => ErrorKind::Validation,
            FriendComplaint::RequestNotFound => ErrorKind::Validation,
            FriendComplaint::SenderUnknown => ErrorKind::Validation,
            FriendComplaint::SelfRequest => ErrorKind::Authorization,
            FriendComplaint::AlreadyRequested => ErrorKind::Authorization,
            FriendComplaint::NotYourRequest => ErrorKind::Authorization,
            FriendComplaint::NotReceiver => ErrorKind::Authorization,
            _ => ErrorKind::Persistence,
        }
    }

    /// The words of the error frame.
    pub open spec fn text(self) -> Seq<char> {
        match self {
            FriendComplaint::Malformed => "Malformed payload"@,
            FriendComplaint::UnknownAction => "Unknown action"@,
            FriendComplaint::UserLookupFailed => "Error checking if user exists"@,
            FriendComplaint::FriendshipLookupFailed => "Error checking if friend request already exists"@,
            FriendComplaint::SelfRequest => "You can't send message to yourself"@,
            FriendComplaint::AlreadyRequested => "Friend request already sent or received"@,
            FriendComplaint::UserNotFound => "User not found"@,
            FriendComplaint::RequestNotCreated => "Error creating friend request"@,
            FriendComplaint::RequestLookupFailed => "Error fetching friend request"@,
            FriendComplaint::RequestNotFound => "Friend request not found"@,
            FriendComplaint::NotYourRequest => "You can only cancel your own friend requests"@,
            FriendComplaint::FriendNotDeleted => "Error deleting friend"@,
            FriendComplaint::ReceiverLookupFailed => "Error checking if user is receiver"@,
            FriendComplaint::SenderUnknown => "Failed to get sender"@,
            FriendComplaint::NotReceiver => "You can accept your own friend request"@,
            FriendComplaint::RequestNotAccepted => "Error accepting friend request"@,
        }
    }

    /// The words of the error frame.
    pub fn message(&self) -> (words: &'static str)
        ensures
            words@ == self.text(),
    {
        match self {
            FriendComplaint::Malformed => "Malformed payload",
            FriendComplaint::UnknownAction => "Unknown action",
            FriendComplaint::UserLookupFailed => "Error checking if user exists",
            FriendComplaint::FriendshipLookupFailed => "Error checking if friend request already exists",
            FriendComplaint::SelfRequest => "You can't send message to yourself",
            FriendComplaint::AlreadyRequested => "Friend request already sent or received",
            FriendComplaint::UserNotFound => "User not found",
            FriendComplaint::RequestNotCreated => "Error creating friend request",
            FriendComplaint::RequestLookupFailed => "Error fetching friend request",
            FriendComplaint::RequestNotFound => "Friend request not found",
            FriendComplaint::NotYourRequest => "You can only cancel your own friend requests",
            FriendComplaint::FriendNotDeleted => "Error deleting friend",
            FriendComplaint::ReceiverLookupFailed => "Error checking if user is receiver",
            FriendComplaint::SenderUnknown => "Failed to get sender",
            FriendComplaint::NotReceiver => "You can accept your own friend request",
            FriendComplaint::RequestNotAccepted => "Error accepting friend request",
        }
    }
}

/// Whether a turn, as the program holds it, is the turn `meant`.
pub open spec fn is_turn(turn: (InboundState, Vec<FriendEffect>), meant: Turn) -> bool {
    turn.0 == meant.0 && turn.1@ =~= meant.1
}

fn one(effect: FriendEffect) -> (effects: Vec<FriendEffect>)
    ensures
        effects@ == seq![effect],
{
    let mut effects = Vec::new();
    effects.push(effect);
    effects
}

fn two(first: FriendEffect, second: FriendEffect) -> (effects: Vec<FriendEffect>)
    ensures
        effects@ == seq![first, second],
{
    let mut effects = Vec::new();
    effects.push(first);
    effects.push(second);
    effects
}

fn refuse(complaint: FriendComplaint) -> (turn: (InboundState, Vec<FriendEffect>))
    ensures
        is_turn(turn, refused(complaint)),
{
    (InboundState::Idle, one(FriendEffect::Report(complaint)))
}

fn ask(pending: Pending, query: FriendQuery) -> (turn: (InboundState, Vec<FriendEffect>))
    ensures
        is_turn(turn, asking(pending, query)),
{
    (InboundState::Busy(pending), one(FriendEffect::Ask(query)))
}

fn publish(event: FriendAction) -> (turn: (InboundState, Vec<FriendEffect>))
    ensures
        is_turn(turn, published(event)),
{
    (InboundState::Idle, one(FriendEffect::Publish(event)))
}

/// Takes up a command on an idle connection.
pub fn start(caller: &Caller, command: Result<FriendCommand, FrameError>) -> (turn: (
    InboundState,
    Vec<FriendEffect>,
))
    ensures
        is_turn(turn, started(*caller, command)),
{
    match command {
        Err(FrameError::Malformed) => refuse(FriendComplaint::Malformed),
        Err(FrameError::UnknownAction) => refuse(FriendComplaint::UnknownAction),
        Ok(FriendCommand::SendRequest { receiver_username }) => {
            let query = FriendQuery::UserExists { username: receiver_username.clone() };
            ask(Pending::CheckingUser { receiver_username }, query)
        },
        Ok(FriendCommand::Accept { friend_id }) => ask(
            Pending::FetchingToAccept { friend_id },
            FriendQuery::FetchFriendship { id: friend_id },
        ),
        Ok(FriendCommand::Cancel { friend_req_id }) => ask(
            Pending::FetchingToCancel { friend_req_id },
            FriendQuery::FetchFriendship { id: friend_req_id },
        ),
    }
}

/// Goes on with the command in progress when the store has answered.
pub fn resume(caller: &Caller, pending: Pending, answer: FriendAnswer) -> (turn: (
    InboundState,
    Vec<FriendEffect>,
))
    ensures
        is_turn(turn, resumed(*caller, pending, answer)),
{
    match pending {
        Pending::CheckingUser { receiver_username } => match answer {
            FriendAnswer::Flag(user_exists) => {
                let query = FriendQuery::FriendshipExists {
                    first_user: caller.username.clone(),
                    second_user: receiver_username.clone(),
                };
                ask(Pending::CheckingFriendship { receiver_username, user_exists }, query)
            },
            _ => refuse(FriendComplaint::UserLookupFailed),
        },
        Pending::CheckingFriendship { receiver_username, user_exists } => match answer {
            FriendAnswer::Flag(already) => {
                if receiver_username == caller.username {
                    refuse(FriendComplaint::SelfRequest)
                } else if already {
                    refuse(FriendComplaint::AlreadyRequested)
                } else if !user_exists {
                    refuse(FriendComplaint::UserNotFound)
                } else {
                    ask(
                        Pending::InsertingRequest,
                        FriendQuery::InsertRequest {
                            sender_username: caller.username.clone(),
                            receiver_username,
                        },
                    )
                }
            },
            _ => refuse(FriendComplaint::FriendshipLookupFailed),
        },
        Pending::InsertingRequest => match answer {
            FriendAnswer::FriendRow(friendship) => publish(FriendAction::SendRequest(friendship)),
            _ => refuse(FriendComplaint::RequestNotCreated),
        },
        Pending::FetchingToAccept { friend_id } => match answer {
            FriendAnswer::Friendship(Some(friendship)) => {
                if friendship.receiver_username == caller.username {
                    ask(Pending::Accepting, FriendQuery::AcceptRequest { id: friend_id })
                } else {
                    refuse(FriendComplaint::NotReceiver)
                }
            },
            FriendAnswer::Friendship(None) => refuse(FriendComplaint::SenderUnknown),
            _ => refuse(FriendComplaint::ReceiverLookupFailed),
        },
        Pending::Accepting => match answer {
            FriendAnswer::FriendRow(accepted) => match accepted.id {
                Some(id) => publish(
                    FriendAction::Accept(
                        FriendRequestStatus {
                            id,
                            sender_username: accepted.sender_username,
                            receiver_username: accepted.receiver_username,
                            status: accepted.status,
                        },
                    ),
                ),
                None => refuse(FriendComplaint::RequestNotAccepted),
            },
            _ => refuse(FriendComplaint::RequestNotAccepted),
        },
        Pending::FetchingToCancel { friend_req_id } => match answer {
            FriendAnswer::Friendship(Some(friendship)) => {
                if friendship.sender_username == caller.username || friendship.receiver_username
                    == caller.username {
                    ask(
                        Pending::Deleting { friend_req_id },
                        FriendQuery::DeleteFriendship { id: friend_req_id },
                    )
                } else {
                    refuse(FriendComplaint::NotYourRequest)
                }
            },
            FriendAnswer::Friendship(None) => refuse(FriendComplaint::RequestNotFound),
            _ => refuse(FriendComplaint::RequestLookupFailed),
        },
        Pending::Deleting { friend_req_id } => match answer {
            FriendAnswer::Done => publish(
                FriendAction::Cancel(CancelFriendRequest { friend_req_id }),
            ),
            _ => refuse(FriendComplaint::FriendNotDeleted),
        },
    }
}

/// Takes one step on the inbound side of a connection.
pub fn step(caller: &Caller, state: InboundState, input: InboundInput) -> (turn: (
    InboundState,
    Vec<FriendEffect>,
))
    ensures
        is_turn(turn, stepped(*caller, state, input)),
{
    match state {
        InboundState::Stopped => (InboundState::Stopped, Vec::new()),
        InboundState::Idle => match input {
            InboundInput::Command(command) => start(caller, command),
            InboundInput::Answer(_) => (InboundState::Idle, Vec::new()),
            InboundInput::Close => (
                InboundState::Stopped,
                two(FriendEffect::Unregister, FriendEffect::Stop),
            ),
            InboundInput::Unrecognized => (
                InboundState::Stopped,
                two(FriendEffect::Unregister, FriendEffect::Stop),
            ),
        },
        InboundState::Busy(pending) => match input {
            InboundInput::Command(_) => (InboundState::Busy(pending), Vec::new()),
            InboundInput::Answer(answer) => resume(caller, pending, answer),
            InboundInput::Close => (
                InboundState::Stopped,
                two(FriendEffect::Unregister, FriendEffect::Stop),
            ),
            InboundInput::Unrecognized => (
                InboundState::Stopped,
                two(FriendEffect::Unregister, FriendEffect::Stop),
            ),
        },
    }
}

/// Reads a text frame and takes the step that its command asks for.
pub fn on_text(caller: &Caller, state: InboundState, text: &str) -> (turn: (
    InboundState,
    Vec<FriendEffect>,
))
    ensures
        exists|command: Result<FriendCommand, FrameError>|
            reads_as(command, friend_frame_command(text@)) && is_turn(
                turn,
                #[trigger] stepped(*caller, state, InboundInput::Command(command)),
            ),
{
    let command = FriendCommand::from_text(text);
    let ghost read = command;
    let turn = step(caller, state, InboundInput::Command(command));
    assert(is_turn(turn, stepped(*caller, state, InboundInput::Command(read))));
    turn
}

/// Whether an effect tells the caller that its command was refused: for its
/// shape or by the rules, not because the store failed.
pub open spec fn is_refusal(effect: FriendEffect) -> bool {
    effect matches FriendEffect::Report(complaint) && complaint.kind() != ErrorKind::Persistence
}

/// A command that is refused has no other effect. In a turn that tells the
/// caller of a refusal every effect is an error frame, and the command is
/// over: the store is asked for nothing and nothing is published.
pub proof fn lemma_refusal_changes_nothing(
    caller: Caller,
    pending: Pending,
    answer: FriendAnswer,
    command: Result<FriendCommand, FrameError>,
    position: int,
    other: int,
)
    ensures
        ({
            let turn = resumed(caller, pending, answer);
            0 <= position < turn.1.len() && 0 <= other < turn.1.len() && is_refusal(
                turn.1[position],
            ) ==> turn.0 == InboundState::Idle && turn.1[other] is Report
        }),
        ({
            let turn = started(caller, command);
            0 <= position < turn.1.len() && 0 <= other < turn.1.len() && is_refusal(
                turn.1[position],
            ) ==> turn.0 == InboundState::Idle && turn.1[other] is Report
        }),
{
}

/// Whether an effect asks the store to accept a request.
pub open spec fn asks_to_accept(effect: FriendEffect) -> bool {
    effect matches FriendEffect::Ask(FriendQuery::AcceptRequest { .. })
}

/// Whether an effect asks the store to delete a friendship.
pub open spec fn asks_to_delete(effect: FriendEffect) -> bool {
    effect matches FriendEffect::Ask(FriendQuery::DeleteFriendship { .. })
}

/// Anyone but the receiver of a request who tries to accept it is refused:
/// the sender too. The command ends with an error frame for the caller; the
/// store is asked for nothing more, so the status of the request stays as it
/// was, and nothing is published.
pub proof fn lemma_only_the_receiver_accepts(caller: Caller, friend_id: i32, friendship: Friends)
    requires
        friendship.receiver_username@ != caller.username@,
    ensures
        resumed(
            caller,
            Pending::FetchingToAccept { friend_id },
            FriendAnswer::Friendship(Some(friendship)),
        ) == refused(FriendComplaint::NotReceiver),
{
}

/// Whenever the relay asks the store to accept a request, the store has just
/// shown it the request, and the caller is its receiver. No command starts
/// with such a query.
pub proof fn lemma_acceptance_is_the_receivers(
    caller: Caller,
    pending: Pending,
    answer: FriendAnswer,
    command: Result<FriendCommand, FrameError>,
    position: int,
)
    ensures
        0 <= position < started(caller, command).1.len() ==> !asks_to_accept(
            started(caller, command).1[position],
        ),
        0 <= position < resumed(caller, pending, answer).1.len() && asks_to_accept(
            resumed(caller, pending, answer).1[position],
        ) ==> {
            &&& pending matches Pending::FetchingToAccept { friend_id }
            &&& answer matches FriendAnswer::Friendship(Some(friendship))
            &&& friendship.receiver_username@ == caller.username@
            &&& resumed(caller, pending, answer).1[position] == FriendEffect::Ask(
                FriendQuery::AcceptRequest { id: friend_id },
            )
        },
{
}

/// Whenever the relay asks the store to delete a friendship, the store has
/// just shown it the friendship, and the caller is its sender or its
/// receiver. No command starts with such a query.
pub proof fn lemma_cancellation_is_a_partys(
    caller: Caller,
    pending: Pending,
    answer: FriendAnswer,
    command: Result<FriendCommand, FrameError>,
    position: int,
)
    ensures
        0 <= position < started(caller, command).1.len() ==> !asks_to_delete(
            started(caller, command).1[position],
        ),
        0 <= position < resumed(caller, pending, answer).1.len() && asks_to_delete(
            resumed(caller, pending, answer).1[position],
        ) ==> {
            &&& pending matches Pending::FetchingToCancel { friend_req_id }
            &&& answer matches FriendAnswer::Friendship(Some(friendship))
            &&& is_party(friendship, caller.username@)
            &&& resumed(caller, pending, answer).1[position] == FriendEffect::Ask(
                FriendQuery::DeleteFriendship { id: friend_req_id },
            )
        },
{
}

/// A request for the caller's own friendship, for a friendship that exists,
/// or to a user who does not exist is refused, and nothing is stored.
pub proof fn lemma_request_is_checked(
    caller: Caller,
    receiver_username: String,
    user_exists: bool,
    already: bool,
)
    requires
        receiver_username@ == caller.username@ || already || !user_exists,
    ensures
        resumed(
            caller,
            Pending::CheckingFriendship { receiver_username, user_exists },
            FriendAnswer::Flag(already),
        ).0 == InboundState::Idle,
        resumed(
            caller,
            Pending::CheckingFriendship { receiver_username, user_exists },
            FriendAnswer::Flag(already),
        ).1.len() == 1,
        resumed(
            caller,
            Pending::CheckingFriendship { receiver_username, user_exists },
            FriendAnswer::Flag(already),
        ).1[0] is Report,
{
}

/// A connection that has stopped takes no further step, and a close stops a
/// connection from any other state, taking its session out of the registry.
pub proof fn lemma_close_is_final(caller: Caller, state: InboundState, input: InboundInput)
    ensures
        stepped(caller, InboundState::Stopped, input) == (
            InboundState::Stopped,
            Seq::<FriendEffect>::empty(),
        ),
        !(state is Stopped) ==> stepped(caller, state, InboundInput::Close) == closed(),
        !(state is Stopped) ==> stepped(caller, state, InboundInput::Unrecognized) == closed(),
{
}

} // verus!
