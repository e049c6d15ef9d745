use chat_relay::verification::{
    code_from_draws, confirm, generate_verification_code, mail_body, ConfirmationProblem,
    CODE_LENGTH,
};

const ALPHABET: &str = "ABCDEFGHIJKLMNOPQRSTUVWXYZ0123456789";

#[test]
fn code_spells_its_draws() {
    assert_eq!(code_from_draws(&vec![0, 1, 2, 25, 26, 35]), Some("ABCZ09".to_string()));
    assert_eq!(code_from_draws(&vec![7, 8]), Some("HI".to_string()));
    assert_eq!(code_from_draws(&vec![]), Some(String::new()));
}

#[test]
fn code_has_no_letter_for_a_draw_beyond_the_alphabet() {
    assert_eq!(code_from_draws(&vec![0, 36]), None);
    assert_eq!(code_from_draws(&vec![usize::MAX]), None);
}

#[test]
fn generated_code_has_six_characters_of_the_alphabet() {
    assert_eq!(CODE_LENGTH, 6);
    for _ in 0..200 {
        let code = generate_verification_code();
        assert_eq!(code.chars().count(), 6);
        assert!(code.chars().all(|letter| ALPHABET.contains(letter)));
    }
}

#[test]
fn generated_codes_differ() {
    let first = generate_verification_code();
    let mut differs = false;
    for _ in 0..50 {
        if generate_verification_code() != first {
            differs = true;
        }
    }
    assert!(differs);
}

#[test]
fn confirm_accepts_the_code_that_was_sent() {
    assert_eq!(confirm(false, Some("AB12CD"), "AB12CD"), None);
}

#[test]
fn confirm_refuses_another_code() {
    let wrong = Some(ConfirmationProblem::WrongCode);
    assert_eq!(confirm(false, Some("AB12CD"), "AB12CE"), wrong);
    assert_eq!(confirm(false, Some("AB12CD"), "ab12cd"), wrong);
    assert_eq!(confirm(false, Some("AB12CD"), ""), wrong);
    assert_eq!(confirm(false, None, "AB12CD"), wrong);
    assert_eq!(confirm(false, None, ""), wrong);
}

#[test]
fn confirm_refuses_an_account_that_is_verified() {
    let already = Some(ConfirmationProblem::AlreadyVerified);
    assert_eq!(confirm(true, Some("AB12CD"), "AB12CD"), already);
    assert_eq!(confirm(true, None, "nothing"), already);
}

#[test]
fn confirmation_problems_have_their_words() {
    assert_eq!(ConfirmationProblem::AlreadyVerified.message(), "user already verified");
    assert_eq!(ConfirmationProblem::WrongCode.message(), "invalid verification code");
}

#[test]
fn mail_names_the_user_and_the_code() {
    assert_eq!(
        mail_body("amy", "AB12CD"),
        "Hey amy, here's your verification code: AB12CD\n\nCopy and paste this in the app to verify your account :3"
    );
    assert_eq!(
        mail_body("", ""),
        "Hey , here's your verification code: \n\nCopy and paste this in the app to verify your account :3"
    );
}
