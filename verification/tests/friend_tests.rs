use chat_relay::claims::Caller;
use chat_relay::connection::Delivery;
use chat_relay::frame::{ErrorKind, FrameError};
use chat_relay::friend::command::{FriendCommand, FriendRequestPayload};
use chat_relay::friend::inbound::{
    on_text, resume, start, step, FriendAnswer, FriendComplaint, FriendEffect, FriendQuery,
    InboundInput, InboundState, Pending,
};
use chat_relay::friend::model::{
    CancelFriendRequest, FriendAction, FriendAppState, FriendRequestStatus, Friends, UserSession,
};
use chat_relay::friend::outbound::{encode, on_event, on_tick, resolve};

fn amy() -> Caller {
    Caller { email: "amy@example.com".to_string(), username: "amy".to_string() }
}

fn bob() -> Caller {
    Caller { email: "bob@example.com".to_string(), username: "bob".to_string() }
}

fn zoe() -> Caller {
    Caller { email: "zoe@example.com".to_string(), username: "zoe".to_string() }
}

fn friendship(id: i32, sender: &str, receiver: &str, status: &str) -> Friends {
    Friends {
        id: Some(id),
        sender_username: sender.to_string(),
        receiver_username: receiver.to_string(),
        status: status.to_string(),
    }
}

fn report(complaint: FriendComplaint) -> (InboundState, Vec<FriendEffect>) {
    (InboundState::Idle, vec![FriendEffect::Report(complaint)])
}

#[test]
fn friend_request_payload_is_read() {
    let payload = serde_json::from_str(r#"{"receiver_username":"bob"}"#).unwrap();
    assert_eq!(
        FriendRequestPayload::from_payload(&payload),
        Some(FriendRequestPayload { receiver_username: "bob".to_string() })
    );
    let payload = serde_json::from_str(r#"{"receiver_username":null}"#).unwrap();
    assert_eq!(FriendRequestPayload::from_payload(&payload), None);
    let payload = serde_json::from_str("{}").unwrap();
    assert_eq!(FriendRequestPayload::from_payload(&payload), None);
}

#[test]
fn every_friend_action_is_a_command() {
    assert_eq!(
        FriendCommand::from_text(r#"{"action":"send_request","payload":{"receiver_username":"bob"}}"#),
        Ok(FriendCommand::SendRequest { receiver_username: "bob".to_string() })
    );
    assert_eq!(
        FriendCommand::from_text(r#"{"action":"accept","payload":{"friend_id":3}}"#),
        Ok(FriendCommand::Accept { friend_id: 3 })
    );
    assert_eq!(
        FriendCommand::from_text(r#"{"action":"cancel","payload":{"friend_req_id":4}}"#),
        Ok(FriendCommand::Cancel { friend_req_id: 4 })
    );
}

#[test]
fn friend_frame_without_what_the_operation_needs_is_malformed() {
    let malformed = [
        r#"{"action":"send_request","payload":{}}"#,
        r#"{"action":"send_request","payload":{"receiver_username":7}}"#,
        r#"{"action":"accept","payload":{}}"#,
        r#"{"action":"accept","payload":{"friend_id":"3"}}"#,
        r#"{"action":"accept","payload":{"friend_id":3.5}}"#,
        r#"{"action":"accept","payload":{"friend_id":4294967297}}"#,
        r#"{"action":"accept","payload":3}"#,
        r#"{"action":"cancel","payload":{"friend_id":3}}"#,
        r#"{"action":"cancel","payload":{"friend_req_id":null}}"#,
        r#"{"action":"cancel"}"#,
        "[]",
    ];
    for text in malformed {
        assert_eq!(FriendCommand::from_text(text), Err(FrameError::Malformed));
    }
}

#[test]
fn friend_frame_with_another_action_is_unknown() {
    assert_eq!(
        FriendCommand::from_text(r#"{"action":"new_message","payload":{"message":"hi"}}"#),
        Err(FrameError::UnknownAction)
    );
    assert_eq!(
        FriendCommand::from_text(r#"{"action":"decline","payload":{"friend_id":3}}"#),
        Err(FrameError::UnknownAction)
    );
}

#[test]
fn send_request_is_stored_and_published() {
    let text = r#"{"action":"send_request","payload":{"receiver_username":"bob"}}"#;
    let (state, effects) = on_text(&amy(), InboundState::Idle, text);
    assert_eq!(
        effects,
        vec![FriendEffect::Ask(FriendQuery::UserExists { username: "bob".to_string() })]
    );
    let (state, effects) = step(&amy(), state, InboundInput::Answer(FriendAnswer::Flag(true)));
    assert_eq!(
        effects,
        vec![FriendEffect::Ask(FriendQuery::FriendshipExists {
            first_user: "amy".to_string(),
            second_user: "bob".to_string(),
        })]
    );
    let (state, effects) = step(&amy(), state, InboundInput::Answer(FriendAnswer::Flag(false)));
    assert_eq!(
        effects,
        vec![FriendEffect::Ask(FriendQuery::InsertRequest {
            sender_username: "amy".to_string(),
            receiver_username: "bob".to_string(),
        })]
    );
    let stored = friendship(3, "amy", "bob", "pending");
    let (state, effects) =
        step(&amy(), state, InboundInput::Answer(FriendAnswer::FriendRow(stored.clone())));
    assert_eq!(state, InboundState::Idle);
    assert_eq!(effects, vec![FriendEffect::Publish(FriendAction::SendRequest(stored))]);
}

#[test]
fn send_request_to_oneself_is_refused() {
    let pending = Pending::CheckingFriendship {
        receiver_username: "amy".to_string(),
        user_exists: true,
    };
    assert_eq!(
        resume(&amy(), pending, FriendAnswer::Flag(false)),
        report(FriendComplaint::SelfRequest)
    );
}

#[test]
fn send_request_twice_is_refused() {
    let pending = Pending::CheckingFriendship {
        receiver_username: "bob".to_string(),
        user_exists: true,
    };
    assert_eq!(
        resume(&amy(), pending, FriendAnswer::Flag(true)),
        report(FriendComplaint::AlreadyRequested)
    );
}

#[test]
fn send_request_to_nobody_is_refused() {
    let pending = Pending::CheckingFriendship {
        receiver_username: "nobody".to_string(),
        user_exists: false,
    };
    assert_eq!(
        resume(&amy(), pending, FriendAnswer::Flag(false)),
        report(FriendComplaint::UserNotFound)
    );
}

#[test]
fn send_request_gives_the_first_reason_that_holds() {
    let to_oneself = Pending::CheckingFriendship {
        receiver_username: "amy".to_string(),
        user_exists: false,
    };
    assert_eq!(
        resume(&amy(), to_oneself, FriendAnswer::Flag(true)),
        report(FriendComplaint::SelfRequest)
    );
    let twice_to_nobody = Pending::CheckingFriendship {
        receiver_username: "bob".to_string(),
        user_exists: false,
    };
    assert_eq!(
        resume(&amy(), twice_to_nobody, FriendAnswer::Flag(true)),
        report(FriendComplaint::AlreadyRequested)
    );
}

#[test]
fn send_request_store_failures_are_reported() {
    let checking = Pending::CheckingUser { receiver_username: "bob".to_string() };
    assert_eq!(
        resume(&amy(), checking, FriendAnswer::Failed),
        report(FriendComplaint::UserLookupFailed)
    );
    let pending = Pending::CheckingFriendship {
        receiver_username: "bob".to_string(),
        user_exists: true,
    };
    assert_eq!(
        resume(&amy(), pending, FriendAnswer::Failed),
        report(FriendComplaint::FriendshipLookupFailed)
    );
    assert_eq!(
        resume(&amy(), Pending::InsertingRequest, FriendAnswer::Failed),
        report(FriendComplaint::RequestNotCreated)
    );
}

#[test]
fn accept_by_the_receiver_sets_the_status_and_publishes() {
    let (state, effects) = start(&bob(), Ok(FriendCommand::Accept { friend_id: 3 }));
    assert_eq!(effects, vec![FriendEffect::Ask(FriendQuery::FetchFriendship { id: 3 })]);
    let pending_row = friendship(3, "amy", "bob", "pending");
    let (state, effects) =
        step(&bob(), state, InboundInput::Answer(FriendAnswer::Friendship(Some(pending_row))));
    assert_eq!(effects, vec![FriendEffect::Ask(FriendQuery::AcceptRequest { id: 3 })]);
    let accepted = friendship(3, "amy", "bob", "accepted");
    let (state, effects) =
        step(&bob(), state, InboundInput::Answer(FriendAnswer::FriendRow(accepted)));
    assert_eq!(state, InboundState::Idle);
    assert_eq!(
        effects,
        vec![FriendEffect::Publish(FriendAction::Accept(FriendRequestStatus {
            id: 3,
            sender_username: "amy".to_string(),
            receiver_username: "bob".to_string(),
            status: "accepted".to_string(),
        }))]
    );
}

#[test]
fn accept_by_the_sender_is_refused() {
    let pending = Pending::FetchingToAccept { friend_id: 3 };
    let row = friendship(3, "amy", "bob", "pending");
    assert_eq!(
        resume(&amy(), pending, FriendAnswer::Friendship(Some(row))),
        report(FriendComplaint::NotReceiver)
    );
}

#[test]
fn accept_by_a_stranger_is_refused() {
    let pending = Pending::FetchingToAccept { friend_id: 3 };
    let row = friendship(3, "amy", "bob", "pending");
    assert_eq!(
        resume(&zoe(), pending, FriendAnswer::Friendship(Some(row))),
        report(FriendComplaint::NotReceiver)
    );
    assert_eq!(FriendComplaint::NotReceiver.message(), "You can accept your own friend request");
}

#[test]
fn accept_failures_are_reported() {
    let pending = Pending::FetchingToAccept { friend_id: 3 };
    assert_eq!(
        resume(&bob(), pending.clone(), FriendAnswer::Friendship(None)),
        report(FriendComplaint::SenderUnknown)
    );
    assert_eq!(
        resume(&bob(), pending, FriendAnswer::Failed),
        report(FriendComplaint::ReceiverLookupFailed)
    );
    assert_eq!(
        resume(&bob(), Pending::Accepting, FriendAnswer::Failed),
        report(FriendComplaint::RequestNotAccepted)
    );
    let mut without_id = friendship(3, "amy", "bob", "accepted");
    without_id.id = None;
    assert_eq!(
        resume(&bob(), Pending::Accepting, FriendAnswer::FriendRow(without_id)),
        report(FriendComplaint::RequestNotAccepted)
    );
}

#[test]
fn cancel_by_sender_or_receiver_deletes_and_publishes() {
    for caller in [amy(), bob()] {
        let (state, effects) = start(&caller, Ok(FriendCommand::Cancel { friend_req_id: 3 }));
        assert_eq!(effects, vec![FriendEffect::Ask(FriendQuery::FetchFriendship { id: 3 })]);
        let row = friendship(3, "amy", "bob", "pending");
        let (state, effects) =
            step(&caller, state, InboundInput::Answer(FriendAnswer::Friendship(Some(row))));
        assert_eq!(effects, vec![FriendEffect::Ask(FriendQuery::DeleteFriendship { id: 3 })]);
        let (state, effects) = step(&caller, state, InboundInput::Answer(FriendAnswer::Done));
        assert_eq!(state, InboundState::Idle);
        assert_eq!(
            effects,
            vec![FriendEffect::Publish(FriendAction::Cancel(CancelFriendRequest {
                friend_req_id: 3
            }))]
        );
    }
}

#[test]
fn cancel_by_a_stranger_is_refused() {
    let pending = Pending::FetchingToCancel { friend_req_id: 3 };
    let row = friendship(3, "amy", "bob", "accepted");
    assert_eq!(
        resume(&zoe(), pending, FriendAnswer::Friendship(Some(row))),
        report(FriendComplaint::NotYourRequest)
    );
}

#[test]
fn cancel_failures_are_reported() {
    let pending = Pending::FetchingToCancel { friend_req_id: 3 };
    assert_eq!(
        resume(&amy(), pending.clone(), FriendAnswer::Friendship(None)),
        report(FriendComplaint::RequestNotFound)
    );
    assert_eq!(
        resume(&amy(), pending, FriendAnswer::Failed),
        report(FriendComplaint::RequestLookupFailed)
    );
    assert_eq!(
        resume(&amy(), Pending::Deleting { friend_req_id: 3 }, FriendAnswer::Failed),
        report(FriendComplaint::FriendNotDeleted)
    );
}

#[test]
fn unreadable_friend_frames_are_answered_and_the_connection_stays_open() {
    assert_eq!(start(&amy(), Err(FrameError::Malformed)), report(FriendComplaint::Malformed));
    assert_eq!(start(&amy(), Err(FrameError::UnknownAction)), report(FriendComplaint::UnknownAction));
    let turn = on_text(&amy(), InboundState::Idle, r#"{"action":"dance","payload":{}}"#);
    assert_eq!(turn, report(FriendComplaint::UnknownAction));
}

#[test]
fn friend_close_unregisters_and_stops() {
    let closed = (InboundState::Stopped, vec![FriendEffect::Unregister, FriendEffect::Stop]);
    assert_eq!(step(&amy(), InboundState::Idle, InboundInput::Close), closed);
    assert_eq!(step(&amy(), InboundState::Idle, InboundInput::Unrecognized), closed);
    let busy = InboundState::Busy(Pending::Accepting);
    assert_eq!(step(&amy(), busy, InboundInput::Close), closed);
    assert_eq!(
        step(&amy(), InboundState::Stopped, InboundInput::Close),
        (InboundState::Stopped, vec![])
    );
}

#[test]
fn friend_inputs_out_of_turn_change_nothing() {
    assert_eq!(
        step(&amy(), InboundState::Idle, InboundInput::Answer(FriendAnswer::Done)),
        (InboundState::Idle, vec![])
    );
    let busy = InboundState::Busy(Pending::Accepting);
    let command = FriendCommand::Accept { friend_id: 1 };
    assert_eq!(step(&amy(), busy.clone(), InboundInput::Command(Ok(command))), (busy, vec![]));
}

#[test]
fn every_friend_complaint_has_its_words() {
    let words = [
        (FriendComplaint::Malformed, "Malformed payload"),
        (FriendComplaint::UnknownAction, "Unknown action"),
        (FriendComplaint::UserLookupFailed, "Error checking if user exists"),
        (FriendComplaint::FriendshipLookupFailed, "Error checking if friend request already exists"),
        (FriendComplaint::SelfRequest, "You can't send message to yourself"),
        (FriendComplaint::AlreadyRequested, "Friend request already sent or received"),
        (FriendComplaint::UserNotFound, "User not found"),
        (FriendComplaint::RequestNotCreated, "Error creating friend request"),
        (FriendComplaint::RequestLookupFailed, "Error fetching friend request"),
        (FriendComplaint::RequestNotFound, "Friend request not found"),
        (FriendComplaint::NotYourRequest, "You can only cancel your own friend requests"),
        (FriendComplaint::FriendNotDeleted, "Error deleting friend"),
        (FriendComplaint::ReceiverLookupFailed, "Error checking if user is receiver"),
        (FriendComplaint::SenderUnknown, "Failed to get sender"),
        (FriendComplaint::NotReceiver, "You can accept your own friend request"),
        (FriendComplaint::RequestNotAccepted, "Error accepting friend request"),
    ];
    for (complaint, expected) in words {
        assert_eq!(complaint.message(), expected);
    }
}

#[test]
fn friend_request_is_shown_to_sender_and_receiver() {
    let event = FriendAction::SendRequest(friendship(3, "amy", "bob", "pending"));
    assert_eq!(resolve(&event, "amy"), Delivery::Deliver);
    assert_eq!(resolve(&event, "bob"), Delivery::Deliver);
    assert_eq!(resolve(&event, "zoe"), Delivery::Skip);
}

#[test]
fn acceptance_is_shown_on_the_word_of_the_store() {
    let event = FriendAction::Accept(FriendRequestStatus {
        id: 3,
        sender_username: "amy".to_string(),
        receiver_username: "bob".to_string(),
        status: "accepted".to_string(),
    });
    assert_eq!(resolve(&event, "amy"), Delivery::AskStore { id: 3 });
    assert_eq!(resolve(&event, "zoe"), Delivery::AskStore { id: 3 });
}

#[test]
fn cancellation_is_shown_to_everybody() {
    let event = FriendAction::Cancel(CancelFriendRequest { friend_req_id: 3 });
    assert_eq!(resolve(&event, "amy"), Delivery::Deliver);
    assert_eq!(resolve(&event, "zoe"), Delivery::Deliver);
}

#[test]
fn friend_connection_without_a_session_gets_nothing() {
    let mut state = FriendAppState::new();
    state.user_sessions.register("amy@example.com".to_string(), UserSession::open(&amy(), 1));
    let event = FriendAction::Cancel(CancelFriendRequest { friend_req_id: 3 });
    assert_eq!(on_event(&state, "amy@example.com", "amy", &event), Delivery::Deliver);
    assert!(on_tick(&state, "amy@example.com"));
    assert_eq!(on_event(&state, "bob@example.com", "bob", &event), Delivery::Stop);
    state.user_sessions.remove("amy@example.com");
    assert_eq!(on_event(&state, "amy@example.com", "amy", &event), Delivery::Stop);
    assert!(!on_tick(&state, "amy@example.com"));
}

#[test]
fn friend_event_frames() {
    assert_eq!(
        encode(&FriendAction::SendRequest(friendship(3, "amy", "bob", "pending"))),
        r#"{"action":"send_request","id":3,"receiver_username":"bob","sender_username":"amy","status":"pending"}"#
    );
    let mut without_id = friendship(3, "amy", "bob", "pending");
    without_id.id = None;
    assert_eq!(
        encode(&FriendAction::SendRequest(without_id)),
        r#"{"action":"send_request","id":null,"receiver_username":"bob","sender_username":"amy","status":"pending"}"#
    );
    let accepted = FriendRequestStatus {
        id: 3,
        sender_username: "amy".to_string(),
        receiver_username: "bob".to_string(),
        status: "accepted".to_string(),
    };
    assert_eq!(
        encode(&FriendAction::Accept(accepted)),
        r#"{"action":"accept","id":3,"receiver_username":"bob","sender_username":"amy","status":"accepted"}"#
    );
    assert_eq!(
        encode(&FriendAction::Cancel(CancelFriendRequest { friend_req_id: 3 })),
        r#"{"action":"cancel","friend_req_id":3}"#
    );
}

#[test]
fn friend_complaints_are_of_three_kinds() {
    assert_eq!(FriendComplaint::Malformed.error_kind(), ErrorKind::Validation);
    assert_eq!(FriendComplaint::UnknownAction.error_kind(), ErrorKind::Validation);
    assert_eq!(FriendComplaint::UserNotFound.error_kind(), ErrorKind::Validation);
    assert_eq!(FriendComplaint::RequestNotFound.error_kind(), ErrorKind::Validation);
    assert_eq!(FriendComplaint::SenderUnknown.error_kind(), ErrorKind::Validation);
    assert_eq!(FriendComplaint::SelfRequest.error_kind(), ErrorKind::Authorization);
    assert_eq!(FriendComplaint::AlreadyRequested.error_kind(), ErrorKind::Authorization);
    assert_eq!(FriendComplaint::NotYourRequest.error_kind(), ErrorKind::Authorization);
    assert_eq!(FriendComplaint::NotReceiver.error_kind(), ErrorKind::Authorization);
    let failures = [
        FriendComplaint::UserLookupFailed,
        FriendComplaint::FriendshipLookupFailed,
        FriendComplaint::RequestNotCreated,
        FriendComplaint::RequestLookupFailed,
        FriendComplaint::FriendNotDeleted,
        FriendComplaint::ReceiverLookupFailed,
        FriendComplaint::RequestNotAccepted,
    ];
    for complaint in failures {
        assert_eq!(complaint.error_kind(), ErrorKind::Persistence);
    }
}
