//! Accounts: what a new account has to look like, how a password is kept and
//! checked, and where the picture of a user is kept.

use crate::verification::{generate_verification_code, is_code};
use vstd::prelude::*;
use vstd::string::StringExecFns;

verus! {

/// `regex::Regex`, carried through verified code as an opaque value.
#[verifier::external_type_specification]
#[verifier::external_body]
pub struct ExRegex(regex::Regex);

/// The pattern that a compiled regex stands for.
pub uninterp spec fn regex_pattern(regex: regex::Regex) -> Seq<char>;

/// Whether a pattern, as the `regex` crate reads it, finds a match anywhere
/// in a text.
pub uninterp spec fn pattern_accepts(pattern: Seq<char>, text: Seq<char>) -> bool;

/// Calls `Regex::new`. A regex that comes back stands for the pattern that it
/// was compiled from; `None` where the crate refuses the pattern.
#[verifier::external_body]
fn compile(pattern: &str) -> (result: Option<regex::Regex>)
    ensures
        result matches Some(regex) ==> regex_pattern(regex) == pattern@,
{
    regex::Regex::new(pattern).ok()
}

/// Calls `Regex::is_match`: whether there is a match for the regex anywhere
/// in the text.
#[verifier::external_body]
fn accepts(regex: &regex::Regex, text: &str) -> (result: bool)
    ensures
        result == pattern_accepts(regex_pattern(*regex), text@),
{
    regex.is_match(text)
}

/// `Regex::clone` gives a regex that stands for the same pattern.
pub assume_specification[ <regex::Regex as Clone>::clone ](regex: &regex::Regex) -> (result:
    regex::Regex)
    ensures
        regex_pattern(result) == regex_pattern(*regex),
;

/// What `bcrypt::verify` says of a password and a hash: whether the hash is
/// one of the password, or `None` where it reports an error, as it does for a
/// text that is no hash.
pub uninterp spec fn bcrypt_verdict(password: Seq<char>, hash: Seq<char>) -> Option<bool>;

/// Calls `bcrypt::verify`, which takes cost and salt from the hash, hashes the
/// password again and compares.
#[verifier::external_body]
fn bcrypt_verify(password: &str, hash: &str) -> (result: Option<bool>)
    ensures
        result == bcrypt_verdict(password@, hash@),
{
    bcrypt::verify(password, hash).ok()
}

/// Calls `bcrypt::hash` at the default cost; `None` where the crate reports
/// an error. The salt is drawn at random, so two calls on one password
/// differ, and nothing is said of the hash that comes back.
#[verifier::external_body]
fn bcrypt_hash(password: &str) -> (result: Option<String>) {
    bcrypt::hash(password, bcrypt::DEFAULT_COST).ok()
}

/// Calls `sanitize_filename::sanitize`, which takes out of a name what a file
/// name must not hold. What that is depends on the platform, so nothing is
/// said of the result.
#[verifier::external_body]
fn sanitize(name: &str) -> (result: String) {
    sanitize_filename::sanitize(name)
}

/// The pattern of an e-mail address.
pub open spec fn email_pattern() -> Seq<char> {
    r"^[\w\.-]+@[\w\.-]+\.\w{2,}$"@
}

/// The pattern of a user name: two to twenty small letters, digits,
/// underscores and hyphens.
pub open spec fn username_pattern() -> Seq<char> {
    r"^[a-z0-9_-]{2,20}$"@
}

/// The pattern of a password: six characters or more.
pub open spec fn password_pattern() -> Seq<char> {
    r"^.{6,}$"@
}

/// The compiled patterns that a new account is held against.
#[derive(Clone)]
pub struct RegexValidator {
    pub email: regex::Regex,
    pub username: regex::Regex,
    pub password: regex::Regex,
}

/// Why an account is not opened.
#[derive(Debug, Clone, Copy, PartialEq, Eq, Structural)]
pub enum RegistrationProblem {
    MissingField,
    InvalidEmail,
    InvalidUsername,
    InvalidPassword,
    /// The password could not be hashed.
    HashFailed,
}

/// An account that may be opened: what is stored of it.
#[derive(Debug, Clone, PartialEq, Eq)]
pub struct NewAccount {
    pub username: String,
    pub email: String,
    /// The bcrypt hash of the password.
    pub password_hash: String,
    /// The code that is mailed to the user to confirm the address.
    pub verification_code: String,
}

/// Why a user is not logged in.
#[derive(Debug, Clone, Copy, PartialEq, Eq, Structural)]
pub enum LoginProblem {
    UserNotFound,
    /// The stored hash could not be checked.
    CheckFailed,
    InvalidPassword,
}

/// Where the picture of a user is kept.
#[derive(Debug, Clone, PartialEq, Eq)]
pub struct AvatarFile {
    /// The name of the user, as far as a file name can hold it.
    pub owner: String,
    /// The name of the file.
    pub filename: String,
    /// The path of the file on disk.
    pub filepath: String,
    /// The path under which the file is served, and which is stored with the
    /// user.
    pub db_path: String,
}

/// What is wrong with the data of a new account, if anything: the first of
/// a missing field, an e-mail address, a user name and a password that its
/// pattern does not accept.
pub open spec fn registration_problem(
    validator: RegexValidator,
    username: Seq<char>,
    email: Seq<char>,
    password: Seq<char>,
) -> Option<RegistrationProblem> {
    if username.len() == 0 || email.len() == 0 || password.len() == 0 {
        Some(RegistrationProblem::MissingField)
    } else if !pattern_accepts(regex_pattern(validator.email), email) {
        Some(RegistrationProblem::InvalidEmail)
    } else if !pattern_accepts(regex_pattern(validator.username), username) {
        Some(RegistrationProblem::InvalidUsername)
    } else if !pattern_accepts(regex_pattern(validator.password), password) {
        Some(RegistrationProblem::InvalidPassword)
    } else {
        None
    }
}

impl RegexValidator {
    /// Whether the validator holds the three patterns of the service.
    pub open spec fn standard(self) -> bool {
        &&& regex_pattern(self.email) == email_pattern()
        &&& regex_pattern(self.username) == username_pattern()
        &&& regex_pattern(self.password) == password_pattern()
    }

    /// Compiles the three patterns of the service. `None` where the `regex`
    /// crate refuses one of them.
    pub fn new() -> (validator: Option<RegexValidator>)
        ensures
            validator matches Some(compiled) ==> compiled.standard(),
    {
        let email = compile(r"^[\w\.-]+@[\w\.-]+\.\w{2,}$");
        let username = compile(r"^[a-z0-9_-]{2,20}$");
        let password = compile(r"^.{6,}$");
        RegexValidator::assemble(email, username, password)
    }

    /// The validator that three compiled patterns make, if each of them
    /// compiled.
    pub open spec fn assembled(
        email: Option<regex::Regex>,
        username: Option<regex::Regex>,
        password: Option<regex::Regex>,
    ) -> Option<RegexValidator> {
        match (email, username, password) {
            (Some(email), Some(username), Some(password)) => Some(
                RegexValidator { email, username, password },
            ),
            _ => None,
        }
    }

    /// Makes a validator of what compiling its three patterns gave: the
    /// validator that holds the three regexes where each pattern compiled,
    /// and none where one of them did not.
    pub fn assemble(
        email: Option<regex::Regex>,
        username: Option<regex::Regex>,
        password: Option<regex::Regex>,
    ) -> (validator: Option<RegexValidator>)
        ensures
            validator == Self::assembled(email, username, password),
    {
        match (email, username, password) {
            (Some(email), Some(username), Some(password)) => Some(
                RegexValidator { email, username, password },
            ),
            _ => None,
        }
    }

    /// Whether the pattern for passwords accepts `password`.
    pub fn validate_password(&self, password: &str) -> (valid: bool)
        ensures
            valid == pattern_accepts(regex_pattern(self.password), password@),
    {
        accepts(&self.password, password)
    }

    /// Holds the data of a new account against the patterns.
    pub fn check_registration(&self, username: &str, email: &str, password: &str) -> (problem:
        Option<RegistrationProblem>)
        ensures
            problem == registration_problem(*self, username@, email@, password@),
    {
        if username.is_empty() || email.is_empty() || password.is_empty() {
            Some(RegistrationProblem::MissingField)
        } else if !accepts(&self.email, email) {
            Some(RegistrationProblem::InvalidEmail)
        } else if !accepts(&self.username, username) {
            Some(RegistrationProblem::InvalidUsername)
        } else if !self.validate_password(password) {
            Some(RegistrationProblem::InvalidPassword)
        } else {
            None
        }
    }

    /// Decides whether an account may be opened and prepares what is stored
    /// of it: the data are held against the patterns, the password is hashed
    /// and a verification code is drawn.
    pub fn prepare(&self, username: &str, email: &str, password: &str) -> (result: Result<
        NewAccount,
        RegistrationProblem,
    >)
        ensures
            match result {
                Ok(account) => {
                    &&& registration_problem(*self, username@, email@, password@) is None
                    &&& account.username@ == username@
                    &&& account.email@ == email@
                    &&& is_code(account.verification_code@)
                },
                Err(problem) => match registration_problem(*self, username@, email@, password@) {
                    Some(found) => problem == found,
                    None => problem == RegistrationProblem::HashFailed,
                },
            },
    {
        if let Some(problem) = self.check_registration(username, email, password) {
            return Err(problem);
        }
        let password_hash = match bcrypt_hash(password) {
            Some(password_hash) => password_hash,
            None => {
                return Err(RegistrationProblem::HashFailed);
            },
        };
        Ok(
            NewAccount {
                username: username.to_owned(),
                email: email.to_owned(),
                password_hash,
                verification_code: generate_verification_code(),
            },
        )
    }
}

/// What stands against logging a user in, if anything: no user has the
/// address, the stored hash cannot be checked, or it is not the hash of the
/// password.
pub open spec fn login_problem(stored_hash: Option<Seq<char>>, password: Seq<char>) -> Option<
    LoginProblem,
> {
    match stored_hash {
        None => Some(LoginProblem::UserNotFound),
        Some(hash) => match bcrypt_verdict(password, hash) {
            None => Some(LoginProblem::CheckFailed),
            Some(false) => Some(LoginProblem::InvalidPassword),
            Some(true) => None,
        },
    }
}

/// Holds a password against the hash that is stored for the user, `None`
/// where no user was found.
pub fn check_login(stored_hash: Option<&str>, password: &str) -> (problem: Option<LoginProblem>)
    ensures
        problem == login_problem(
            match stored_hash {
                Some(hash) => Some(hash@),
                None => None,
            },
            password@,
        ),
{
    match stored_hash {
        None => Some(LoginProblem::UserNotFound),
        Some(hash) => match bcrypt_verify(password, hash) {
            None => Some(LoginProblem::CheckFailed),
            Some(false) => Some(LoginProblem::InvalidPassword),
            Some(true) => None,
        },
    }
}

impl AvatarFile {
    /// Whether the three paths are those of the picture of `owner`: a PNG
    /// file named after the owner in the directory of uploads.
    pub open spec fn is_for(self, owner: Seq<char>) -> bool {
        &&& self.owner@ == owner
        &&& self.filename@ == owner + ".png"@
        &&& self.filepath@ == "./uploads/"@ + owner + ".png"@
        &&& self.db_path@ == "/uploads/"@ + owner + ".png"@
    }

    /// The file of the user whose name, made fit for a file name, is `owner`.
    pub fn named(owner: String) -> (file: AvatarFile)
        ensures
            file.is_for(owner@),
    {
        let filename = owner.clone().concat(".png");
        let filepath = String::from_str("./uploads/").concat(filename.as_str());
        let db_path = String::from_str("/uploads/").concat(filename.as_str());
        proof {
            assert(filepath@ =~= "./uploads/"@ + owner@ + ".png"@);
            assert(db_path@ =~= "/uploads/"@ + owner@ + ".png"@);
        }
        AvatarFile { owner, filename, filepath, db_path }
    }

    /// The file of a user: its name is made fit for a file name, and the file
    /// is named after what is left of it.
    pub fn of_user(username: &str) -> (file: AvatarFile)
        ensures
            file.is_for(file.owner@),
    {
        AvatarFile::named(sanitize(username))
    }
}

impl LoginProblem {
    /// The words in which the user is told.
    pub open spec fn text(self) -> Seq<char> {
        match self {
            LoginProblem::UserNotFound => "user not found"@,
            LoginProblem::CheckFailed => "failed to verify password"@,
            LoginProblem::InvalidPassword => "invalid password"@,
        }
    }

    /// The words in which the user is told.
    pub fn message(&self) -> (words: &'static str)
        ensures
            words@ == self.text(),
    {
        match self {
            LoginProblem::UserNotFound => "user not found",
            LoginProblem::CheckFailed => "failed to verify password",
            LoginProblem::InvalidPassword => "invalid password",
        }
    }
}

impl RegistrationProblem {
    /// The words in which the applicant is told.
    pub open spec fn text(self) -> Seq<char> {
        match self {
            RegistrationProblem::MissingField => "username, email, and password are required"@,
            RegistrationProblem::InvalidEmail => "invalid email format"@,
            RegistrationProblem::InvalidUsername => "username must be between 2 and 20 characters, lowercase alphabetic with _ or -"@,
            RegistrationProblem::InvalidPassword => "password must be at least 6 characters long, contain at least one uppercase letter, one number, and one special character"@,
            RegistrationProblem::HashFailed => "failed to hash password"@,
        }
    }

    /// The words in which the applicant is told.
    pub fn message(&self) -> (words: &'static str)
        ensures
            words@ == self.text(),
    {
        match self {
            RegistrationProblem::MissingField => "username, email, and password are required",
            RegistrationProblem::InvalidEmail => "invalid email format",
            RegistrationProblem::InvalidUsername => "username must be between 2 and 20 characters, lowercase alphabetic with _ or -",
            RegistrationProblem::InvalidPassword => "password must be at least 6 characters long, contain at least one uppercase letter, one number, and one special character",
            RegistrationProblem::HashFailed => "failed to hash password",
        }
    }
}

} // verus!
