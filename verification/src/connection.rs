//! The life of one connection, and the outbound side that the connections of
//! both domains have in common.
//!
//! A connection runs two loops. The inbound loop reads commands; its steps are
//! those of the domain that the connection serves. The outbound loop waits
//! for the next event on the bus and for the tick of the watchdog, whichever
//! comes first, and writes to the socket what its subscriber may see.
//! [`outbound_step`] decides what the outbound loop does, and [`advance`] in
//! which phase of its life the connection is.

use vstd::prelude::*;

verus! {

/// The seconds between two ticks of the watchdog. A connection whose session
/// has left the registry stops delivering at the next tick at the latest.
pub const WATCHDOG_INTERVAL_SECS: u64 = 1;

/// What the relay decides for one event and one subscriber.
#[derive(Debug, Clone, Copy, PartialEq, Eq, Structural)]
pub enum Delivery {
    /// The subscriber's session is gone: the outbound loop ends.
    Stop,
    /// The subscriber may not see the event.
    Skip,
    /// The subscriber may see the event.
    Deliver,
    /// The store decides: whether the subscriber belongs to the row with
    /// this id, a chat in the chat domain and a friendship in the friend
    /// domain.
    AskStore { id: i32 },
}

/// Whether the subscriber gets to see an event, given the relay's decision
/// and what the store says where it is asked.
pub open spec fn reaches(delivery: Delivery, store_says: bool) -> bool {
    match delivery {
        Delivery::Deliver => true,
        Delivery::AskStore { .. } => store_says,
        Delivery::Skip => false,
        Delivery::Stop => false,
    }
}

/// Where the outbound loop of a connection stands.
#[derive(Debug, Clone, Copy, PartialEq, Eq, Structural)]
pub enum OutboundState {
    /// Waiting for the next event or tick.
    Listening,
    /// Waiting for the store to say whether the subscriber may see the event
    /// at hand.
    Asking,
    /// Waiting for the socket to take the event at hand.
    Writing,
    /// The loop has ended.
    Stopped,
}

/// What happens on the outbound side of a connection.
#[derive(Debug, Clone, Copy, PartialEq, Eq, Structural)]
pub enum OutboundInput {
    /// An event came off the bus, and the relay decided on it.
    Event(Delivery),
    /// The store answered; `None` where it failed.
    StoreAnswer(Option<bool>),
    /// The socket took the frame, or failed to.
    Written(bool),
    /// The watchdog ticked and looked for the session in the registry.
    Tick { registered: bool },
    /// The subscriber's queue overflowed, and events were dropped for it.
    Lagged,
    /// The bus is gone.
    BusClosed,
}

/// What a step of the outbound side asks the runner of the connection to do.
#[derive(Debug, Clone, Copy, PartialEq, Eq, Structural)]
pub enum OutboundEffect {
    Nothing,
    /// Ask the store whether the subscriber belongs to the row with this id.
    Ask { id: i32 },
    /// Write the event at hand to the socket.
    Write,
    /// End both loops of the connection.
    Stop,
}

/// One step of the outbound side.
///
/// A loop that has ended stays ended. A tick that finds the session gone, and
/// the end of the bus, end the loop from any other state. Apart from that, an
/// event is taken up while listening, the store's answer settles the event
/// that waits for it (only a plain yes lets it through), and the result of a
/// write either returns the loop to listening or, on failure, ends it. Events
/// that were dropped for the subscriber are lost to it and change nothing,
/// and neither does what comes out of turn.
pub open spec fn outbound_stepped(state: OutboundState, input: OutboundInput) -> (
    OutboundState,
    OutboundEffect,
) {
    if state is Stopped {
        (OutboundState::Stopped, OutboundEffect::Nothing)
    } else {
        match (state, input) {
            (_, OutboundInput::Tick { registered: false }) => (
                OutboundState::Stopped,
                OutboundEffect::Stop,
            ),
            (_, OutboundInput::BusClosed) => (OutboundState::Stopped, OutboundEffect::Stop),
            (OutboundState::Listening, OutboundInput::Event(Delivery::Stop)) => (
                OutboundState::Stopped,
                OutboundEffect::Stop,
            ),
            (OutboundState::Listening, OutboundInput::Event(Delivery::Deliver)) => (
                OutboundState::Writing,
                OutboundEffect::Write,
            ),
            (OutboundState::Listening, OutboundInput::Event(Delivery::AskStore { id })) => (
                OutboundState::Asking,
                OutboundEffect::Ask { id },
            ),
            (OutboundState::Asking, OutboundInput::StoreAnswer(Some(true))) => (
                OutboundState::Writing,
                OutboundEffect::Write,
            ),
            (OutboundState::Asking, OutboundInput::StoreAnswer(_)) => (
                OutboundState::Listening,
                OutboundEffect::Nothing,
            ),
            (OutboundState::Writing, OutboundInput::Written(true)) => (
                OutboundState::Listening,
                OutboundEffect::Nothing,
            ),
            (OutboundState::Writing, OutboundInput::Written(false)) => (
                OutboundState::Stopped,
                OutboundEffect::Stop,
            ),
            _ => (state, OutboundEffect::Nothing),
        }
    }
}

/// Takes one step on the outbound side of a connection.
pub fn outbound_step(state: OutboundState, input: OutboundInput) -> (turn: (
    OutboundState,
    OutboundEffect,
))
    ensures
        turn == outbound_stepped(state, input),
{
    match state {
        OutboundState::Stopped => (OutboundState::Stopped, OutboundEffect::Nothing),
        _ => match (state, input) {
            (_, OutboundInput::Tick { registered: false }) => (
                OutboundState::Stopped,
                OutboundEffect::Stop,
            ),
            (_, OutboundInput::BusClosed) => (OutboundState::Stopped, OutboundEffect::Stop),
            (OutboundState::Listening, OutboundInput::Event(Delivery::Stop)) => (
                OutboundState::Stopped,
                OutboundEffect::Stop,
            ),
            (OutboundState::Listening, OutboundInput::Event(Delivery::Deliver)) => (
                OutboundState::Writing,
                OutboundEffect::Write,
            ),
            (OutboundState::Listening, OutboundInput::Event(Delivery::AskStore { id })) => (
                OutboundState::Asking,
                OutboundEffect::Ask { id },
            ),
            (OutboundState::Asking, OutboundInput::StoreAnswer(Some(true))) => (
                OutboundState::Writing,
                OutboundEffect::Write,
            ),
            (OutboundState::Asking, OutboundInput::StoreAnswer(_)) => (
                OutboundState::Listening,
                OutboundEffect::Nothing,
            ),
            (OutboundState::Writing, OutboundInput::Written(true)) => (
                OutboundState::Listening,
                OutboundEffect::Nothing,
            ),
            (OutboundState::Writing, OutboundInput::Written(false)) => (
                OutboundState::Stopped,
                OutboundEffect::Stop,
            ),
            _ => (state, OutboundEffect::Nothing),
        },
    }
}

/// The outbound loop writes an event exactly when the subscriber gets to see
/// it: at once where the relay lets it through, after the store's yes where
/// the store is asked, and never otherwise.
pub proof fn lemma_writes_what_reaches(delivery: Delivery, store_says: bool)
    ensures
        ({
            let taken = outbound_stepped(OutboundState::Listening, OutboundInput::Event(delivery));
            let settled = outbound_stepped(
                taken.0,
                OutboundInput::StoreAnswer(Some(store_says)),
            );
            reaches(delivery, store_says) <==> taken.1 is Write || (taken.1 is Ask && settled.1
                is Write)
        }),
{
}

/// Once the session has left the registry, the outbound loop delivers
/// nothing more from the next tick on: the tick ends the loop, whatever it was
/// doing, and a loop that has ended writes nothing, whatever comes.
pub proof fn lemma_watchdog_ends_delivery(state: OutboundState, later: OutboundInput)
    ensures
        outbound_stepped(state, OutboundInput::Tick { registered: false }).0
            == OutboundState::Stopped,
        outbound_stepped(OutboundState::Stopped, later) == (
            OutboundState::Stopped,
            OutboundEffect::Nothing,
        ),
        outbound_stepped(state, OutboundInput::Tick { registered: true }) == (
            state,
            OutboundEffect::Nothing,
        ),
{
}

/// The phases in the life of a connection.
#[derive(Debug, Clone, Copy, PartialEq, Eq, Structural)]
pub enum Phase {
    /// The socket is open and the credential not yet checked.
    Connecting,
    /// The credential was accepted.
    Authenticated,
    /// The session is registered and both loops run.
    Active,
    /// The loops are ending.
    Closing,
    /// Both loops have ended and the session is released.
    Closed,
}

/// What moves a connection from one phase to the next.
#[derive(Debug, Clone, Copy, PartialEq, Eq, Structural)]
pub enum Signal {
    CredentialAccepted,
    CredentialRejected,
    /// The session was put into the registry.
    Registered,
    /// The peer closed the socket.
    CloseFrame,
    /// A frame arrived that the relay does not recognize.
    ProtocolViolation,
    /// A write to the socket failed.
    WriteFailure,
    /// The watchdog found the session gone.
    SessionAbsent,
    /// Both loops have ended and the session, if it still belonged to this
    /// connection, has been released.
    LoopsExited,
}

/// The phase that follows `phase` on `signal`. A signal that means nothing in
/// a phase leaves the connection where it is.
pub open spec fn next_phase(phase: Phase, signal: Signal) -> Phase {
    match (phase, signal) {
        (Phase::Connecting, Signal::CredentialAccepted) => Phase::Authenticated,
        (Phase::Connecting, Signal::CredentialRejected) => Phase::Closed,
        (Phase::Authenticated, Signal::Registered) => Phase::Active,
        (Phase::Active, Signal::CloseFrame) => Phase::Closing,
        (Phase::Active, Signal::ProtocolViolation) => Phase::Closing,
        (Phase::Active, Signal::WriteFailure) => Phase::Closing,
        (Phase::Active, Signal::SessionAbsent) => Phase::Closing,
        (Phase::Closing, Signal::LoopsExited) => Phase::Closed,
        _ => phase,
    }
}

/// How far a connection has come.
pub open spec fn progress(phase: Phase) -> int {
    match phase {
        Phase::Connecting => 0,
        Phase::Authenticated => 1,
        Phase::Active => 2,
        Phase::Closing => 3,
        Phase::Closed => 4,
    }
}

/// Moves a connection to its next phase.
pub fn advance(phase: Phase, signal: Signal) -> (next: Phase)
    ensures
        next == next_phase(phase, signal),
{
    match (phase, signal) {
        (Phase::Connecting, Signal::CredentialAccepted) => Phase::Authenticated,
        (Phase::Connecting, Signal::CredentialRejected) => Phase::Closed,
        (Phase::Authenticated, Signal::Registered) => Phase::Active,
        (Phase::Active, Signal::CloseFrame) => Phase::Closing,
        (Phase::Active, Signal::ProtocolViolation) => Phase::Closing,
        (Phase::Active, Signal::WriteFailure) => Phase::Closing,
        (Phase::Active, Signal::SessionAbsent) => Phase::Closing,
        (Phase::Closing, Signal::LoopsExited) => Phase::Closed,
        _ => phase,
    }
}

/// A connection never goes back: every signal leaves it where it is or moves
/// it on. It becomes active only from the authenticated phase, by being
/// registered, and authenticated only by an accepted credential. Once closed
/// it stays closed.
pub proof fn lemma_phases_in_order(phase: Phase, signal: Signal)
    ensures
        progress(phase) <= progress(next_phase(phase, signal)),
        next_phase(phase, signal) is Active && !(phase is Active) ==> phase is Authenticated
            && signal is Registered,
        next_phase(phase, signal) is Authenticated && !(phase is Authenticated) ==> phase
            is Connecting && signal is CredentialAccepted,
        next_phase(Phase::Closed, signal) is Closed,
{
}

} // verus!
