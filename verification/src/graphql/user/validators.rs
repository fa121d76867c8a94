//! Validated user names and e-mail addresses.

use crate::errors::{AppError, AppErrorType, AppErrorView, ErrorKind};
use unicode_segmentation::UnicodeSegmentation;
use vstd::prelude::*;
use vstd::string::StringExecFns;

verus! {

/// What `str::trim` leaves of a string.
pub uninterp spec fn trim_of(s: Seq<char>) -> Seq<char>;

/// The number of extended grapheme clusters of a string.
pub uninterp spec fn grapheme_count(s: Seq<char>) -> nat;

/// Whether `validator::validate_email` accepts a string.
pub uninterp spec fn email_accepted(s: Seq<char>) -> bool;

/// `str::trim`: the string without its leading and trailing whitespace. The
/// contract only names the result.
#[verifier::external_body]
fn trimmed(s: &str) -> (t: &str)
    ensures
        t@ == trim_of(s@),
{
    s.trim()
}

/// `UnicodeSegmentation::graphemes` with extended clusters, counted. The
/// contract only names the count.
#[verifier::external_body]
fn count_graphemes(s: &str) -> (n: usize)
    ensures
        n == grapheme_count(s@),
{
    s.graphemes(true).count()
}

/// `validator::validate_email`. The contract only names the verdict.
#[verifier::external_body]
fn check_email(s: &str) -> (ok: bool)
    ensures
        ok == email_accepted(s@),
{
    validator::validate_email(s)
}

/// The longest name accepted, in grapheme clusters.
pub const MAX_NAME_GRAPHEMES: usize = 256;

/// The characters that no user name may hold.
pub open spec fn is_forbidden(c: char) -> bool {
    c == '/' || c == '(' || c == ')' || c == '"' || c == '<' || c == '>' || c == '\\' || c == '{'
        || c == '}'
}

/// Whether a string holds a forbidden character.
pub open spec fn has_forbidden(s: Seq<char>) -> bool {
    exists|i: int| 0 <= i < s.len() && is_forbidden(#[trigger] s[i])
}

/// The rule for user names, given what trimming leaves of the name and how
/// many grapheme clusters it has.
pub open spec fn name_passes(s: Seq<char>, trimmed_len: nat, graphemes: nat) -> bool {
    trimmed_len != 0 && graphemes <= MAX_NAME_GRAPHEMES && !has_forbidden(s)
}

/// Whether a string is an acceptable user name.
pub open spec fn name_accepted(s: Seq<char>) -> bool {
    name_passes(s, trim_of(s).len(), grapheme_count(s))
}

/// The error for a rejected user name.
pub open spec fn name_rejection(s: Seq<char>) -> AppErrorView {
    AppErrorView {
        message: s + " is not a valid subscriber name."@,
        kind: ErrorKind::Validation(s + " is not a valid subscriber name."@),
    }
}

/// The error for a rejected e-mail address.
pub open spec fn email_rejection() -> AppErrorView {
    AppErrorView {
        message: "Failed to parse email."@,
        kind: ErrorKind::Validation("Failed to parse email."@),
    }
}

fn forbidden(c: char) -> (b: bool)
    ensures
        b == is_forbidden(c),
{
    c == '/' || c == '(' || c == ')' || c == '"' || c == '<' || c == '>' || c == '\\' || c == '{'
        || c == '}'
}

/// Whether the string holds one of the forbidden characters.
pub fn contains_forbidden(s: &str) -> (found: bool)
    ensures
        found == has_forbidden(s@),
{
    let mut found = false;
    for c in it: s.chars()
        invariant
            it.seq() == s@,
            found == exists|i: int| 0 <= i < it.index() && is_forbidden(#[trigger] s@[i]),
    {
        if forbidden(c) {
            found = true;
        }
    }
    found
}

/// A user name that passed the rule for names.
#[derive(Debug)]
pub struct UserName(String);

/// An e-mail address that passed validation.
#[derive(Debug)]
pub struct UserEmail(String);

impl View for UserName {
    type V = Seq<char>;

    closed spec fn view(&self) -> Seq<char> {
        self.0@
    }
}

impl View for UserEmail {
    type V = Seq<char>;

    closed spec fn view(&self) -> Seq<char> {
        self.0@
    }
}

impl UserEmail {
    /// Accepts the address or rejects it, given the verdict on it.
    pub fn decide(email: String, verdict: bool) -> (r: Result<UserEmail, AppError>)
        ensures
            match r {
                Ok(e) => verdict && e@ == email@,
                Err(e) => !verdict && e@ == email_rejection(),
            },
    {
        if verdict {
            Ok(UserEmail(email))
        } else {
            Err(
                AppError::new(
                    String::from_str("Failed to parse email."),
                    AppErrorType::ValidationError(String::from_str("Failed to parse email.")),
                ),
            )
        }
    }

    /// Validates an e-mail address.
    pub fn parse(email: String) -> (r: Result<UserEmail, AppError>)
        ensures
            match r {
                Ok(e) => email_accepted(email@) && e@ == email@,
                Err(e) => !email_accepted(email@) && e@ == email_rejection(),
            },
    {
        let verdict = check_email(email.as_str());
        UserEmail::decide(email, verdict)
    }

    /// The address as text.
    pub fn as_ref(&self) -> (s: &str)
        ensures
            s@ == self@,
    {
        self.0.as_str()
    }

    /// Gives up the address.
    pub fn inner(self) -> (s: String)
        ensures
            s@ == self@,
    {
        self.0
    }
}

impl UserName {
    #[verifier::type_invariant]
    closed spec fn clean(&self) -> bool {
        !has_forbidden(self.0@)
    }

    /// Accepts the name or rejects it, given the length of what trimming
    /// leaves of it and the number of its grapheme clusters.
    pub fn decide(s: String, trimmed_len: usize, graphemes: usize) -> (r: Result<
        UserName,
        AppError,
    >)
        ensures
            match r {
                Ok(n) => name_passes(s@, trimmed_len as nat, graphemes as nat) && n@ == s@,
                Err(e) => !name_passes(s@, trimmed_len as nat, graphemes as nat) && e@
                    == name_rejection(s@),
            },
    {
        let is_empty_or_whitespace = trimmed_len == 0;
        let is_too_long = graphemes > MAX_NAME_GRAPHEMES;
        let contains_forbidden_characters = contains_forbidden(s.as_str());
        if is_empty_or_whitespace || is_too_long || contains_forbidden_characters {
            let message = s.clone().concat(" is not a valid subscriber name.");
            let detail = s.concat(" is not a valid subscriber name.");
            Err(AppError::new(message, AppErrorType::ValidationError(detail)))
        } else {
            Ok(UserName(s))
        }
    }

    /// Validates a user name: not blank, at most 256 grapheme clusters, none
    /// of the forbidden characters.
    pub fn parse(s: String) -> (r: Result<UserName, AppError>)
        ensures
            match r {
                Ok(n) => name_accepted(s@) && n@ == s@,
                Err(e) => !name_accepted(s@) && e@ == name_rejection(s@),
            },
    {
        let trimmed_len = trimmed(s.as_str()).unicode_len();
        let graphemes = count_graphemes(s.as_str());
        UserName::decide(s, trimmed_len, graphemes)
    }

    /// The name as text.
    pub fn as_ref(&self) -> (s: &str)
        ensures
            s@ == self@,
            !has_forbidden(s@),
    {
        proof {
            use_type_invariant(self);
        }
        self.0.as_str()
    }

    /// Gives up the name.
    pub fn inner(self) -> (s: String)
        ensures
            s@ == self@,
            !has_forbidden(s@),
    {
        proof {
            use_type_invariant(&self);
        }
        self.0
    }
}

} // verus!
