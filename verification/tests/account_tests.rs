use chat_relay::account::{
    check_login, AvatarFile, LoginProblem, RegexValidator, RegistrationProblem,
};

fn validator() -> RegexValidator {
    RegexValidator::new().unwrap()
}

#[test]
fn validator_holds_the_three_patterns() {
    let validator = validator();
    assert_eq!(validator.email.as_str(), r"^[\w\.-]+@[\w\.-]+\.\w{2,}$");
    assert_eq!(validator.username.as_str(), r"^[a-z0-9_-]{2,20}$");
    assert_eq!(validator.password.as_str(), r"^.{6,}$");
}

#[test]
fn password_needs_six_characters() {
    let validator = validator();
    assert!(validator.validate_password("secret"));
    assert!(validator.validate_password("a much longer password"));
    assert!(!validator.validate_password("short"));
    assert!(!validator.validate_password(""));
    assert!(!validator.validate_password("ab\ncd"));
}

#[test]
fn registration_that_is_in_order() {
    let validator = validator();
    assert_eq!(validator.check_registration("amy", "amy@example.com", "secret"), None);
    assert_eq!(validator.check_registration("a_b-9", "a.b-c@mail.example.org", "123456"), None);
}

#[test]
fn registration_needs_every_field() {
    let validator = validator();
    let missing = Some(RegistrationProblem::MissingField);
    assert_eq!(validator.check_registration("", "amy@example.com", "secret"), missing);
    assert_eq!(validator.check_registration("amy", "", "secret"), missing);
    assert_eq!(validator.check_registration("amy", "amy@example.com", ""), missing);
    assert_eq!(validator.check_registration("", "", ""), missing);
}

#[test]
fn registration_needs_an_email_address() {
    let validator = validator();
    let invalid = Some(RegistrationProblem::InvalidEmail);
    assert_eq!(validator.check_registration("amy", "amy", "secret"), invalid);
    assert_eq!(validator.check_registration("amy", "amy@example", "secret"), invalid);
    assert_eq!(validator.check_registration("amy", "amy@example.c", "secret"), invalid);
    assert_eq!(validator.check_registration("amy", "@example.com", "secret"), invalid);
}

#[test]
fn registration_needs_a_plain_user_name() {
    let validator = validator();
    let invalid = Some(RegistrationProblem::InvalidUsername);
    assert_eq!(validator.check_registration("a", "amy@example.com", "secret"), invalid);
    assert_eq!(validator.check_registration("Amy", "amy@example.com", "secret"), invalid);
    assert_eq!(validator.check_registration("amy smith", "amy@example.com", "secret"), invalid);
    assert_eq!(
        validator.check_registration("abcdefghijklmnopqrstu", "amy@example.com", "secret"),
        invalid
    );
    assert_eq!(
        validator.check_registration("abcdefghijklmnopqrst", "amy@example.com", "secret"),
        None
    );
}

#[test]
fn registration_needs_a_password_of_six_characters() {
    let validator = validator();
    assert_eq!(
        validator.check_registration("amy", "amy@example.com", "short"),
        Some(RegistrationProblem::InvalidPassword)
    );
}

#[test]
fn registration_names_the_first_problem() {
    let validator = validator();
    assert_eq!(
        validator.check_registration("A", "nothing", "x"),
        Some(RegistrationProblem::InvalidEmail)
    );
    assert_eq!(
        validator.check_registration("A", "amy@example.com", "x"),
        Some(RegistrationProblem::InvalidUsername)
    );
}

#[test]
fn registration_problems_have_their_words() {
    assert_eq!(
        RegistrationProblem::MissingField.message(),
        "username, email, and password are required"
    );
    assert_eq!(RegistrationProblem::InvalidEmail.message(), "invalid email format");
    assert_eq!(
        RegistrationProblem::InvalidUsername.message(),
        "username must be between 2 and 20 characters, lowercase alphabetic with _ or -"
    );
    assert_eq!(
        RegistrationProblem::InvalidPassword.message(),
        "password must be at least 6 characters long, contain at least one uppercase letter, one number, and one special character"
    );
}

#[test]
fn cloned_validator_answers_alike() {
    let validator = validator();
    let copy = validator.clone();
    assert_eq!(copy.password.as_str(), validator.password.as_str());
    assert!(copy.validate_password("secret"));
    assert!(!copy.validate_password("short"));
}

#[test]
fn prepared_account_carries_a_hash_of_the_password_and_a_code() {
    let account = validator().prepare("amy", "amy@example.com", "secret").unwrap();
    assert_eq!(account.username, "amy");
    assert_eq!(account.email, "amy@example.com");
    assert_ne!(account.password_hash, "secret");
    assert!(account.password_hash.starts_with("$2"));
    assert_eq!(account.verification_code.chars().count(), 6);
    assert!(account
        .verification_code
        .chars()
        .all(|letter| letter.is_ascii_uppercase() || letter.is_ascii_digit()));
    assert_eq!(check_login(Some(&account.password_hash), "secret"), None);
}

#[test]
fn account_that_is_not_in_order_is_not_prepared() {
    let validator = validator();
    assert_eq!(
        validator.prepare("", "amy@example.com", "secret"),
        Err(RegistrationProblem::MissingField)
    );
    assert_eq!(
        validator.prepare("amy", "amy", "secret"),
        Err(RegistrationProblem::InvalidEmail)
    );
    assert_eq!(
        validator.prepare("Amy", "amy@example.com", "secret"),
        Err(RegistrationProblem::InvalidUsername)
    );
    assert_eq!(
        validator.prepare("amy", "amy@example.com", "short"),
        Err(RegistrationProblem::InvalidPassword)
    );
    assert_eq!(RegistrationProblem::HashFailed.message(), "failed to hash password");
}

#[test]
fn login_with_the_password_of_the_hash() {
    let hash = bcrypt::hash("secret", 4).unwrap();
    assert_eq!(check_login(Some(&hash), "secret"), None);
}

#[test]
fn login_with_another_password_is_refused() {
    let hash = bcrypt::hash("secret", 4).unwrap();
    assert_eq!(check_login(Some(&hash), "Secret"), Some(LoginProblem::InvalidPassword));
    assert_eq!(check_login(Some(&hash), ""), Some(LoginProblem::InvalidPassword));
    // The hash is no password.
    assert_eq!(check_login(Some(&hash), &hash), Some(LoginProblem::InvalidPassword));
}

#[test]
fn login_of_nobody_is_refused() {
    assert_eq!(check_login(None, "secret"), Some(LoginProblem::UserNotFound));
}

#[test]
fn login_against_what_is_no_hash_fails() {
    assert_eq!(check_login(Some("secret"), "secret"), Some(LoginProblem::CheckFailed));
    assert_eq!(check_login(Some(""), "secret"), Some(LoginProblem::CheckFailed));
}

#[test]
fn login_problems_have_their_words() {
    assert_eq!(LoginProblem::UserNotFound.message(), "user not found");
    assert_eq!(LoginProblem::CheckFailed.message(), "failed to verify password");
    assert_eq!(LoginProblem::InvalidPassword.message(), "invalid password");
}

#[test]
fn avatar_is_a_png_named_after_its_owner() {
    let file = AvatarFile::named("amy".to_string());
    assert_eq!(
        file,
        AvatarFile {
            owner: "amy".to_string(),
            filename: "amy.png".to_string(),
            filepath: "./uploads/amy.png".to_string(),
            db_path: "/uploads/amy.png".to_string(),
        }
    );
}

#[test]
fn avatar_of_a_user_stays_in_the_directory_of_uploads() {
    let file = AvatarFile::of_user("../../etc/passwd");
    assert!(!file.owner.contains('/'));
    assert_eq!(file.filename, format!("{}.png", file.owner));
    assert_eq!(file.filepath, format!("./uploads/{}.png", file.owner));
    assert_eq!(file.db_path, format!("/uploads/{}.png", file.owner));
    let plain = AvatarFile::of_user("amy");
    assert_eq!(plain, AvatarFile::named("amy".to_string()));
}

#[test]
fn validator_is_assembled_only_of_three_compiled_patterns() {
    let email = regex::Regex::new("^e$").ok();
    let username = regex::Regex::new("^u$").ok();
    let password = regex::Regex::new("^p$").ok();
    let refused = regex::Regex::new("(").ok();
    assert!(refused.is_none());

    let made = RegexValidator::assemble(email.clone(), username.clone(), password.clone()).unwrap();
    assert_eq!(made.email.as_str(), "^e$");
    assert_eq!(made.username.as_str(), "^u$");
    assert_eq!(made.password.as_str(), "^p$");
    assert!(made.validate_password("p"));
    assert!(!made.validate_password("e"));

    assert!(RegexValidator::assemble(refused.clone(), username.clone(), password.clone()).is_none());
    assert!(RegexValidator::assemble(email.clone(), refused.clone(), password).is_none());
    assert!(RegexValidator::assemble(email, username, refused).is_none());
    assert!(RegexValidator::assemble(None, None, None).is_none());
}
