use chat_relay::chat::model::{AppState, UserSession, CHAT_BUS_CAPACITY};
use chat_relay::claims::{
    expires_at, Caller, Claims, EmailVerify, CONFIRMATION_LIFETIME_SECS, SESSION_LIFETIME_SECS,
};
use chat_relay::friend::model::{FriendAppState, FRIEND_BUS_CAPACITY};
use chat_relay::registry::Registry;

fn session(email: &str, username: &str, chats: &[i32], outbound: u64) -> UserSession {
    UserSession {
        email: email.to_string(),
        username: username.to_string(),
        user_chats: chats.to_vec(),
        outbound,
    }
}

#[test]
fn registry_starts_empty() {
    let registry: Registry<u32> = Registry::new();
    assert_eq!(registry.len(), 0);
    assert!(!registry.contains("amy@example.com"));
    assert_eq!(registry.get("amy@example.com"), None);
}

#[test]
fn registry_register_then_get() {
    let mut registry: Registry<u32> = Registry::new();
    registry.register("amy@example.com".to_string(), 1);
    registry.register("bob@example.com".to_string(), 2);
    assert_eq!(registry.len(), 2);
    assert!(registry.contains("amy@example.com"));
    assert_eq!(registry.get("amy@example.com"), Some(&1));
    assert_eq!(registry.get("bob@example.com"), Some(&2));
    assert_eq!(registry.get("zoe@example.com"), None);
}

#[test]
fn registry_second_registration_overwrites_the_first() {
    let mut registry: Registry<u32> = Registry::new();
    registry.register("amy@example.com".to_string(), 1);
    registry.register("bob@example.com".to_string(), 2);
    registry.register("amy@example.com".to_string(), 3);
    assert_eq!(registry.len(), 2);
    assert_eq!(registry.get("amy@example.com"), Some(&3));
    assert_eq!(registry.identity_at(0), "amy@example.com");
    assert_eq!(registry.identity_at(1), "bob@example.com");
    assert_eq!(registry.session_at(0), &3);
    assert_eq!(registry.session_at(1), &2);
}

#[test]
fn registry_remove_deletes_if_present() {
    let mut registry: Registry<u32> = Registry::new();
    registry.register("amy@example.com".to_string(), 1);
    registry.register("bob@example.com".to_string(), 2);
    registry.register("zoe@example.com".to_string(), 3);
    assert_eq!(registry.remove("bob@example.com"), Some(2));
    assert_eq!(registry.len(), 2);
    assert!(!registry.contains("bob@example.com"));
    assert_eq!(registry.get("amy@example.com"), Some(&1));
    assert_eq!(registry.get("zoe@example.com"), Some(&3));
    assert_eq!(registry.identity_at(0), "amy@example.com");
    assert_eq!(registry.identity_at(1), "zoe@example.com");
    assert_eq!(registry.remove("bob@example.com"), None);
    assert_eq!(registry.len(), 2);
}

#[test]
fn registry_identities_are_told_apart_exactly() {
    let mut registry: Registry<u32> = Registry::new();
    registry.register("amy".to_string(), 1);
    assert!(!registry.contains("Amy"));
    assert!(!registry.contains("amy "));
    assert!(!registry.contains(""));
    registry.register("".to_string(), 2);
    assert_eq!(registry.get(""), Some(&2));
    assert_eq!(registry.len(), 2);
}

#[test]
fn app_state_new_is_empty_with_a_queue_of_a_thousand() {
    let state = AppState::new();
    assert_eq!(state.capacity, 1000);
    assert_eq!(CHAT_BUS_CAPACITY, 1000);
    assert_eq!(state.user_sessions.len(), 0);
}

#[test]
fn friend_app_state_new_is_empty_with_a_queue_of_twenty() {
    let state = FriendAppState::new();
    assert_eq!(state.capacity, 20);
    assert_eq!(FRIEND_BUS_CAPACITY, 20);
    assert_eq!(state.user_sessions.len(), 0);
}

#[test]
fn caller_comes_from_the_claims() {
    let claims = Claims {
        sub: "amy@example.com".to_string(),
        exp: 1_700_000_000,
        email: "amy".to_string(),
    };
    let caller = Caller::from_claims(&claims);
    assert_eq!(caller.email, "amy@example.com");
    assert_eq!(caller.username, "amy");
    let opened = UserSession::open(&caller, vec![1, 2], 9);
    assert_eq!(opened, session("amy@example.com", "amy", &[1, 2], 9));
}

#[test]
fn update_membership_replaces_the_cached_chats_of_a_live_session() {
    let mut state = AppState::new();
    state.user_sessions.register("amy@example.com".to_string(), session("amy@example.com", "amy", &[1], 1));
    state.user_sessions.register("bob@example.com".to_string(), session("bob@example.com", "bob", &[1], 2));
    state.update_membership("amy@example.com", vec![1, 5]);
    assert_eq!(
        state.user_sessions.get("amy@example.com"),
        Some(&session("amy@example.com", "amy", &[1, 5], 1))
    );
    assert_eq!(
        state.user_sessions.get("bob@example.com"),
        Some(&session("bob@example.com", "bob", &[1], 2))
    );
    assert_eq!(state.capacity, 1000);
}

#[test]
fn update_membership_passes_over_an_identity_that_is_not_registered() {
    let mut state = AppState::new();
    state.user_sessions.register("amy@example.com".to_string(), session("amy@example.com", "amy", &[1], 1));
    state.update_membership("zoe@example.com", vec![4]);
    assert_eq!(state.user_sessions.len(), 1);
    assert!(!state.user_sessions.contains("zoe@example.com"));
    assert_eq!(
        state.user_sessions.get("amy@example.com"),
        Some(&session("amy@example.com", "amy", &[1], 1))
    );
}

#[test]
fn update_user_chats_finds_the_session_by_display_name() {
    let mut state = AppState::new();
    state.user_sessions.register("amy@example.com".to_string(), session("amy@example.com", "amy", &[], 1));
    state.user_sessions.register("bob@example.com".to_string(), session("bob@example.com", "bob", &[], 2));
    state.update_user_chats("bob", vec![7]);
    assert_eq!(
        state.user_sessions.get("bob@example.com"),
        Some(&session("bob@example.com", "bob", &[7], 2))
    );
    assert_eq!(
        state.user_sessions.get("amy@example.com"),
        Some(&session("amy@example.com", "amy", &[], 1))
    );
    state.update_user_chats("zoe", vec![8]);
    assert_eq!(state.user_sessions.len(), 2);
    assert_eq!(
        state.user_sessions.get("bob@example.com"),
        Some(&session("bob@example.com", "bob", &[7], 2))
    );
}

#[test]
fn update_user_chats_takes_the_first_session_with_the_name() {
    let mut state = AppState::new();
    state.user_sessions.register("one@example.com".to_string(), session("one@example.com", "amy", &[], 1));
    state.user_sessions.register("two@example.com".to_string(), session("two@example.com", "amy", &[], 2));
    state.update_user_chats("amy", vec![3]);
    assert_eq!(
        state.user_sessions.get("one@example.com"),
        Some(&session("one@example.com", "amy", &[3], 1))
    );
    assert_eq!(
        state.user_sessions.get("two@example.com"),
        Some(&session("two@example.com", "amy", &[], 2))
    );
}

#[test]
fn release_removes_a_session_only_from_its_own_connection() {
    let mut state = AppState::new();
    state.user_sessions.register("amy@example.com".to_string(), session("amy@example.com", "amy", &[], 1));
    // A second connection of the same identity takes the entry over.
    state.user_sessions.register("amy@example.com".to_string(), session("amy@example.com", "amy", &[], 2));
    assert!(!state.release("amy@example.com", 1));
    assert!(state.user_sessions.contains("amy@example.com"));
    assert!(state.release("amy@example.com", 2));
    assert!(!state.user_sessions.contains("amy@example.com"));
    assert!(!state.release("amy@example.com", 2));
}

#[test]
fn friend_release_removes_a_session_only_from_its_own_connection() {
    let caller = Caller { email: "amy@example.com".to_string(), username: "amy".to_string() };
    let mut state = FriendAppState::new();
    state
        .user_sessions
        .register("amy@example.com".to_string(), chat_relay::friend::model::UserSession::open(&caller, 4));
    assert!(!state.release("amy@example.com", 5));
    assert!(!state.release("bob@example.com", 4));
    assert!(state.user_sessions.contains("amy@example.com"));
    assert!(state.release("amy@example.com", 4));
    assert_eq!(state.user_sessions.len(), 0);
}

#[test]
fn session_token_is_good_for_a_day() {
    assert_eq!(SESSION_LIFETIME_SECS, 24 * 60 * 60);
    let claims = Claims::issue("amy@example.com".to_string(), "amy".to_string(), 1_700_000_000);
    assert_eq!(
        claims,
        Some(Claims {
            sub: "amy@example.com".to_string(),
            exp: 1_700_086_400,
            email: "amy".to_string(),
        })
    );
}

#[test]
fn confirmation_token_is_good_for_an_hour() {
    assert_eq!(CONFIRMATION_LIFETIME_SECS, 60 * 60);
    let claims =
        EmailVerify::issue("amy@example.com".to_string(), "amy".to_string(), 1_700_000_000);
    assert_eq!(
        claims,
        Some(EmailVerify {
            sub: "amy@example.com".to_string(),
            exp: 1_700_003_600,
            email: "amy".to_string(),
        })
    );
}

#[test]
fn expiry_must_lie_between_the_epoch_and_the_end_of_time() {
    assert_eq!(expires_at(0, 0), Some(0));
    assert_eq!(expires_at(-10, 10), Some(0));
    assert_eq!(expires_at(-11, 10), None);
    assert_eq!(expires_at(i64::MAX, 1), None);
    assert_eq!(expires_at(i64::MIN, -1), None);
    assert_eq!(expires_at(10, 5), Some(15));
    assert_eq!(Claims::issue("a".to_string(), "b".to_string(), i64::MAX), None);
    assert_eq!(EmailVerify::issue("a".to_string(), "b".to_string(), -3_601), None);
}
