//! Account registration: the registration forms and their validation.
use vstd::prelude::*;
use vstd::string::*;
use crate::config::Configuration;
use crate::error::{Error, FieldError};
use crate::ids::{format_uuid, uuid_simple};
use crate::instantiate;
use crate::instantiate::user_url;
use crate::model::Actor;

verus! {

/// The message of the username length rule.
pub const USERNAME_LENGTH_MESSAGE: &'static str = "Username has to be between 1 and 32 characters long";

/// The message of the username pattern rule.
pub const USERNAME_PATTERN_MESSAGE: &'static str = "Username has to consist of [A-Z, a-z, 0-9, _, -]";

/// The message of the password length rule.
pub const PASSWORD_LENGTH_MESSAGE: &'static str = "Password has to be at least 8 characters long";

/// Form of the registration endpoint
#[derive(Debug)]
pub struct RegistrationForm {
    pub username: String,
    pub email: String,
    pub password: String,
}

/// Form of the first registration endpoint
#[derive(Debug)]
pub struct RegisterForm {
    pub username: String,
    pub email: String,
    pub password: String,
}

/// A character a username may hold: an ASCII letter or digit, `_` or `-`
/// (the character set the pattern rule's message documents).
pub open spec fn username_char(c: char) -> bool {
    ('A' <= c && c <= 'Z') || ('a' <= c && c <= 'z') || ('0' <= c && c <= '9') || c == '_' || c == '-'
}

/// A username passes the pattern rule: at least one character, each an
/// ASCII letter or digit, `_` or `-`.
pub open spec fn username_chars(text: Seq<char>) -> bool {
    text.len() >= 1 && forall|i: int| 0 <= i < text.len() ==> username_char(#[trigger] text[i])
}

/// A character the first registration endpoint accepts in a username: the
/// pattern `[a-z0-9\-_]` matched case-insensitively with Unicode simple case
/// folding, i.e. ASCII letters of either case, digits, `-` and `_`, and the
/// two characters that fold onto ASCII letters: `ſ` (U+017F, onto `s`) and
/// the Kelvin sign `K` (U+212A, onto `k`).
pub open spec fn legacy_username_char(c: char) -> bool {
    username_char(c) || c == '\u{17F}' || c == '\u{212A}'
}

/// A username the first registration endpoint accepts: 1 to 32 characters,
/// each a `legacy_username_char`.
pub open spec fn legacy_username_chars(text: Seq<char>) -> bool {
    1 <= text.len() <= 32 && forall|i: int| 0 <= i < text.len() ==> legacy_username_char(#[trigger] text[i])
}

/// Whether every character of the text is a username character.
fn all_username_chars(text: &str) -> (r: bool)
    ensures
        r == (forall|i: int| 0 <= i < text@.len() ==> username_char(#[trigger] text@[i])),
{
    broadcast use vstd::string::axiom_spec_iter;
    let mut ok = true;
    for c in it: text.chars()
        invariant
            it.seq() == text@,
            ok == (forall|i: int| 0 <= i < it.index() ==> username_char(#[trigger] text@[i])),
    {
        let good = ('A' <= c && c <= 'Z') || ('a' <= c && c <= 'z') || ('0' <= c && c <= '9') || c == '_'
            || c == '-';
        ok = ok && good;
    }
    ok
}

/// Whether every character of the text is accepted by the first registration
/// endpoint.
fn all_legacy_username_chars(text: &str) -> (r: bool)
    ensures
        r == (forall|i: int| 0 <= i < text@.len() ==> legacy_username_char(#[trigger] text@[i])),
{
    broadcast use vstd::string::axiom_spec_iter;
    let mut ok = true;
    for c in it: text.chars()
        invariant
            it.seq() == text@,
            ok == (forall|i: int| 0 <= i < it.index() ==> legacy_username_char(#[trigger] text@[i])),
    {
        let good = ('A' <= c && c <= 'Z') || ('a' <= c && c <= 'z') || ('0' <= c && c <= '9') || c == '_'
            || c == '-' || c == '\u{17F}' || c == '\u{212A}';
        ok = ok && good;
    }
    ok
}

/// Whether a username passes the pattern rule.
fn username_pattern_match(text: &str) -> (r: bool)
    ensures
        r == username_chars(text@),
{
    !text.is_empty() && all_username_chars(text)
}

/// Whether `validator::validate_email` accepts the text.
pub uninterp spec fn email_accepted(text: Seq<char>) -> bool;

/// `validator::validate_email`. The outcome is named: it depends on the text
/// alone.
#[verifier::external_body]
fn email_is_valid(text: &str) -> (r: bool)
    ensures
        r == email_accepted(text@),
{
    validator::validate_email(text)
}

/// `validator::validate_length` on a string with a lower and an optional
/// upper bound: as its source shows, the length counted is the number of
/// characters.
#[verifier::external_body]
fn length_in_bounds(text: &str, min: u64, max: Option<u64>) -> (r: bool)
    ensures
        r == (min <= text@.len() && match max {
            Some(m) => text@.len() <= m,
            None => true,
        }),
{
    validator::validate_length(text, Some(min), max, None)
}

/// A field error as plain values: field, rule and message.
pub open spec fn field_error_view(e: FieldError) -> (Seq<char>, Seq<char>, Option<Seq<char>>) {
    (e.field@, e.code@, match e.message {
        Some(m) => Some(m@),
        None => None,
    })
}

/// The failed rules of a registration form, field by field in the order
/// username, email, password, and for the username the length rule before
/// the pattern rule.
pub open spec fn registration_failures(
    username: Seq<char>,
    email: Seq<char>,
    password: Seq<char>,
) -> Seq<(Seq<char>, Seq<char>, Option<Seq<char>>)> {
    let length_fail: Seq<(Seq<char>, Seq<char>, Option<Seq<char>>)> = if 1 <= username.len()
        && username.len() <= 32 {
        Seq::empty()
    } else {
        seq![("username"@, "length"@, Some(USERNAME_LENGTH_MESSAGE@))]
    };
    let pattern_fail: Seq<(Seq<char>, Seq<char>, Option<Seq<char>>)> = if username_chars(
        username,
    ) {
        Seq::empty()
    } else {
        seq![("username"@, "regex"@, Some(USERNAME_PATTERN_MESSAGE@))]
    };
    let email_fail: Seq<(Seq<char>, Seq<char>, Option<Seq<char>>)> = if email_accepted(email) {
        Seq::empty()
    } else {
        seq![("email"@, "email"@, None)]
    };
    let password_fail: Seq<(Seq<char>, Seq<char>, Option<Seq<char>>)> = if 8 <= password.len() {
        Seq::empty()
    } else {
        seq![("password"@, "length"@, Some(PASSWORD_LENGTH_MESSAGE@))]
    };
    length_fail + pattern_fail + email_fail + password_fail
}

/// A registration passes validation only if its username has 1 to 32
/// characters, each an ASCII letter, an ASCII digit, `_` or `-`, and its
/// password has at least 8 characters. (So `john.doe` or `é` is refused.)
pub proof fn law_valid_registrations_have_plain_usernames(
    username: Seq<char>,
    email: Seq<char>,
    password: Seq<char>,
)
    requires
        registration_failures(username, email, password).len() == 0,
    ensures
        1 <= username.len() <= 32,
        forall|i: int| 0 <= i < username.len() ==> {
            let c = #[trigger] username[i];
            ('A' <= c && c <= 'Z') || ('a' <= c && c <= 'z') || ('0' <= c && c <= '9') || c == '_' || c == '-'
        },
        8 <= password.len(),
{
}

fn failure(field: &str, code: &str, message: Option<&str>) -> (r: FieldError)
    ensures
        field_error_view(r) == (field@, code@, match message {
            Some(m) => Some(m@),
            None => None::<Seq<char>>,
        }),
{
    FieldError {
        field: String::from_str(field),
        code: String::from_str(code),
        message: match message {
            Some(m) => Some(String::from_str(m)),
            None => None,
        },
    }
}

/// Validate a registration form: every failed rule is reported.
pub fn validate_registration(form: &RegistrationForm) -> (r: Result<(), Error>)
    ensures
        registration_failures(form.username@, form.email@, form.password@).len() == 0 ==> r is Ok,
        registration_failures(form.username@, form.email@, form.password@).len() > 0 ==> match r {
            Err(Error::Validation(errors)) => errors@.map_values(|e: FieldError| field_error_view(e))
                == registration_failures(form.username@, form.email@, form.password@),
            _ => false,
        },
        r is Ok ==> 1 <= form.username@.len() <= 32 && 8 <= form.password@.len()
            && forall|i: int| 0 <= i < form.username@.len() ==> {
                let c = #[trigger] form.username@[i];
                ('A' <= c && c <= 'Z') || ('a' <= c && c <= 'z') || ('0' <= c && c <= '9') || c == '_' || c == '-'
            },
{
    let ghost expected = registration_failures(form.username@, form.email@, form.password@);
    let mut errors: Vec<FieldError> = Vec::new();
    let ghost mut seen: Seq<(Seq<char>, Seq<char>, Option<Seq<char>>)> = Seq::empty();
    if !length_in_bounds(form.username.as_str(), 1, Some(32)) {
        errors.push(failure("username", "length", Some(USERNAME_LENGTH_MESSAGE)));
        proof {
            seen = seen.push(("username"@, "length"@, Some(USERNAME_LENGTH_MESSAGE@)));
        }
    }
    proof {
        assert(errors@.map_values(|e: FieldError| field_error_view(e)) =~= seen);
    }
    if !username_pattern_match(form.username.as_str()) {
        let ghost before = errors@;
        errors.push(failure("username", "regex", Some(USERNAME_PATTERN_MESSAGE)));
        proof {
            seen = seen.push(("username"@, "regex"@, Some(USERNAME_PATTERN_MESSAGE@)));
            assert(errors@ == before.push(errors@.last()));
        }
    }
    proof {
        assert(errors@.map_values(|e: FieldError| field_error_view(e)) =~= seen);
    }
    if !email_is_valid(form.email.as_str()) {
        errors.push(failure("email", "email", None));
        proof {
            seen = seen.push(("email"@, "email"@, None));
        }
    }
    proof {
        assert(errors@.map_values(|e: FieldError| field_error_view(e)) =~= seen);
    }
    if !length_in_bounds(form.password.as_str(), 8, None) {
        errors.push(failure("password", "length", Some(PASSWORD_LENGTH_MESSAGE)));
        proof {
            seen = seen.push(("password"@, "length"@, Some(PASSWORD_LENGTH_MESSAGE@)));
        }
    }
    proof {
        assert(errors@.map_values(|e: FieldError| field_error_view(e)) =~= seen);
        assert(seen =~= expected);
    }
    if errors.len() == 0 {
        Ok(())
    } else {
        Err(Error::Validation(errors))
    }
}

/// What a registration request leads to.
#[derive(Debug)]
pub enum RegistrationDecision {
    /// Registrations are closed: answer 403.
    Closed,
    /// Create the account.
    Open,
}

/// Decide a registration request: closed registrations are refused before
/// the form is looked at; otherwise the form has to validate.
pub fn registration_gate(closed_registrations: bool, form: &RegistrationForm) -> (r: Result<
    RegistrationDecision,
    Error,
>)
    ensures
        closed_registrations ==> r == Ok::<RegistrationDecision, Error>(RegistrationDecision::Closed),
        !closed_registrations && registration_failures(form.username@, form.email@, form.password@).len()
            == 0 ==> r == Ok::<RegistrationDecision, Error>(RegistrationDecision::Open),
        !closed_registrations && registration_failures(form.username@, form.email@, form.password@).len()
            > 0 ==> match r {
            Err(Error::Validation(errors)) => errors@.map_values(|e: FieldError| field_error_view(e))
                == registration_failures(form.username@, form.email@, form.password@),
            _ => false,
        },
{
    if closed_registrations {
        return Ok(RegistrationDecision::Closed);
    }
    match validate_registration(form) {
        Ok(()) => Ok(RegistrationDecision::Open),
        Err(e) => Err(e),
    }
}

/// The actor of a newly registered local user.
pub fn registration_actor(config: &Configuration, user_id: u128, username: &str, public_key_pem: String) -> (r: Actor)
    ensures
        r.id@ == user_url(config.instance.domain@, uuid_simple(user_id)),
        r.kind@ == "Person"@,
        r.username@ == username@,
        r.name@ == Seq::<char>::empty(),
        r.summary@ == Seq::<char>::empty(),
        r.inbox@ == r.id@ + "/inbox"@,
        r.outbox@ == r.id@ + "/outbox"@,
        r.followers@ == r.id@ + "/followers"@,
        r.following@ == r.id@ + "/following"@,
        r.public_key.id@ == r.id@ + "#main-key"@,
        r.public_key.owner@ == r.id@,
        r.public_key.public_key_pem == public_key_pem,
        r.icon is None,
        r.image is None,
{
    let id = format_uuid(user_id);
    instantiate::actor(config, id.as_str(), username, public_key_pem)
}

/// Whether a username is accepted by the first registration endpoint.
pub fn legacy_username_valid(username: &str) -> (r: bool)
    ensures
        r == legacy_username_chars(username@),
{
    let len = username.unicode_len();
    1 <= len && len <= 32 && all_legacy_username_chars(username)
}

} // verus!
