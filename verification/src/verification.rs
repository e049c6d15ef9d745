//! The code that a new user gets by mail to confirm an e-mail address.

use vstd::prelude::*;
use vstd::string::{StrSliceExecFns, StringExecFns};

verus! {

/// The number of characters of a verification code.
pub const CODE_LENGTH: usize = 6;

/// The characters that a verification code is made of: the capital letters
/// and the digits.
pub open spec fn code_alphabet() -> Seq<char> {
    "ABCDEFGHIJKLMNOPQRSTUVWXYZ0123456789"@
}

/// Whether a text has the form of a verification code.
pub open spec fn is_code(text: Seq<char>) -> bool {
    &&& text.len() == CODE_LENGTH
    &&& forall|position: int|
        0 <= position < text.len() ==> code_alphabet().contains(#[trigger] text[position])
}

/// Calls `rand::random_range` on `0..bound`, which draws from the generator
/// of the thread. Of the number that comes back only the range is known. The
/// call panics on an empty range, which `requires` leaves out.
#[verifier::external_body]
fn random_below(bound: usize) -> (index: usize)
    requires
        bound > 0,
    ensures
        index < bound,
{
    rand::random_range(0..bound)
}

/// The code that a sequence of draws spells: for each draw the character of
/// the alphabet at that place. `None` where a draw is beyond the alphabet.
pub fn code_from_draws(draws: &Vec<usize>) -> (code: Option<String>)
    ensures
        match code {
            Some(code) => {
                &&& code@.len() == draws.len()
                &&& forall|position: int|
                    0 <= position < draws.len() ==> (#[trigger] draws[position])
                        < code_alphabet().len() && code@[position]
                        == code_alphabet()[draws[position] as int]
            },
            None => exists|position: int|
                0 <= position < draws.len() && (#[trigger] draws[position])
                    >= code_alphabet().len(),
        },
{
    let alphabet = "ABCDEFGHIJKLMNOPQRSTUVWXYZ0123456789";
    proof {
        reveal_strlit("ABCDEFGHIJKLMNOPQRSTUVWXYZ0123456789");
        assert(alphabet@.len() == 36);
        assert(alphabet.is_ascii());
    }
    let mut code = String::new();
    let mut position: usize = 0;
    while position < draws.len()
        invariant
            position <= draws.len(),
            alphabet@ == code_alphabet(),
            alphabet@.len() == 36,
            alphabet.is_ascii(),
            code@.len() == position,
            forall|before: int|
                0 <= before < position ==> (#[trigger] draws[before]) < code_alphabet().len()
                    && code@[before] == code_alphabet()[draws[before] as int],
        decreases draws.len() - position,
    {
        let draw = draws[position];
        if draw >= 36 {
            return None;
        }
        let letter = alphabet.substring_ascii(draw, draw + 1);
        let ghost spelled = code@;
        code.append(letter);
        proof {
            assert(letter@.len() == 1);
            assert(letter@[0] == alphabet@[draw as int]);
            assert forall|before: int| 0 <= before <= position implies (#[trigger] draws[before])
                < code_alphabet().len() && code@[before] == code_alphabet()[draws[before] as int] by {
                if before < position {
                    assert(code@[before] == spelled[before]);
                }
            }
        }
        position += 1;
    }
    Some(code)
}

/// Draws a verification code: six characters of the alphabet, each drawn at
/// random.
pub fn generate_verification_code() -> (code: String)
    ensures
        is_code(code@),
{
    let mut draws: Vec<usize> = Vec::new();
    while draws.len() < CODE_LENGTH
        invariant
            draws.len() <= CODE_LENGTH,
            forall|position: int| 0 <= position < draws.len() ==> (#[trigger] draws[position]) < 36,
        decreases CODE_LENGTH - draws.len(),
    {
        let draw = random_below(36);
        draws.push(draw);
    }
    proof {
        reveal_strlit("ABCDEFGHIJKLMNOPQRSTUVWXYZ0123456789");
    }
    match code_from_draws(&draws) {
        Some(code) => {
            assert forall|position: int| 0 <= position < code@.len() implies code_alphabet().contains(
                #[trigger] code@[position],
            ) by {
                assert(code@[position] == code_alphabet()[draws[position] as int]);
            }
            code
        },
        None => vstd::pervasive::unreached(),
    }
}

/// The words of the mail that brings a user its verification code.
pub open spec fn mail_text(username: Seq<char>, code: Seq<char>) -> Seq<char> {
    "Hey "@ + username + ", here's your verification code: "@ + code
        + "\n\nCopy and paste this in the app to verify your account :3"@
}

/// Writes the mail that brings a user its verification code.
pub fn mail_body(username: &str, code: &str) -> (body: String)
    ensures
        body@ == mail_text(username@, code@),
{
    let mut body = String::from_str("Hey ");
    body.append(username);
    body.append(", here's your verification code: ");
    body.append(code);
    body.append("\n\nCopy and paste this in the app to verify your account :3");
    body
}

/// Why an e-mail address is not confirmed.
#[derive(Debug, Clone, Copy, PartialEq, Eq, Structural)]
pub enum ConfirmationProblem {
    AlreadyVerified,
    WrongCode,
}

/// What stands against confirming an address, if anything: the account is
/// confirmed already, or the code that the user gives is not the one that
/// was sent. An account to which no code was sent cannot be confirmed.
pub open spec fn confirmation_problem(
    verified: bool,
    sent: Option<Seq<char>>,
    given: Seq<char>,
) -> Option<ConfirmationProblem> {
    if verified {
        Some(ConfirmationProblem::AlreadyVerified)
    } else if sent != Some(given) {
        Some(ConfirmationProblem::WrongCode)
    } else {
        None
    }
}

/// Holds the code that a user gives against the one that was sent.
pub fn confirm(verified: bool, sent: Option<&str>, given: &str) -> (problem: Option<
    ConfirmationProblem,
>)
    ensures
        problem == confirmation_problem(
            verified,
            match sent {
                Some(code) => Some(code@),
                None => None,
            },
            given@,
        ),
{
    if verified {
        return Some(ConfirmationProblem::AlreadyVerified);
    }
    match sent {
        Some(code) => if *code == *given {
            None
        } else {
            Some(ConfirmationProblem::WrongCode)
        },
        None => Some(ConfirmationProblem::WrongCode),
    }
}

impl ConfirmationProblem {
    /// The words in which the user is told.
    pub open spec fn text(self) -> Seq<char> {
        match self {
            ConfirmationProblem::AlreadyVerified => "user already verified"@,
            ConfirmationProblem::WrongCode => "invalid verification code"@,
        }
    }

    /// The words in which the user is told.
    pub fn message(&self) -> (words: &'static str)
        ensures
            words@ == self.text(),
    {
        match self {
            ConfirmationProblem::AlreadyVerified => "user already verified",
            ConfirmationProblem::WrongCode => "invalid verification code",
        }
    }
}

} // verus!
