//! Domain rules for subscriber data: a display name under a
//! length/forbidden-character policy and a syntactically valid email
//! address.  Both are validated once at the boundary and carried as
//! witness types afterwards.

use vstd::prelude::*;

verus! {

/// Characters that a subscriber display name may not contain.
pub open spec fn is_forbidden_name_char(c: char) -> bool {
    c == '/' || c == '(' || c == ')' || c == '"' || c == '<' || c == '>' || c == '\\' || c == '{'
        || c == '}'
}

/// Whitespace for the purposes of input validation.
pub open spec fn is_whitespace_char(c: char) -> bool {
    c == ' ' || c == '\t' || c == '\n' || c == '\r'
}

/// A valid display name: at most 256 characters, at least one
/// non-whitespace character, and no forbidden character.
pub open spec fn is_valid_subscriber_name(s: Seq<char>) -> bool {
    &&& s.len() <= 256
    &&& exists|i: int| 0 <= i < s.len() && !is_whitespace_char(s[i])
    &&& forall|i: int| 0 <= i < s.len() ==> !is_forbidden_name_char(s[i])
}

/// A valid email address: at most 256 characters, no whitespace, and
/// exactly one '@' with a non-empty local part and a non-empty domain.
pub open spec fn is_valid_subscriber_email(s: Seq<char>) -> bool {
    &&& s.len() <= 256
    &&& forall|i: int| 0 <= i < s.len() ==> !is_whitespace_char(s[i])
    &&& exists|k: int|
        0 < k < s.len() - 1 && s[k] == '@' && (forall|j: int|
            0 <= j < s.len() && j != k ==> s[j] != '@')
}

/// Why a raw `(name, email)` pair was rejected.
#[derive(Clone, Copy, Debug, PartialEq, Eq, Structural)]
pub enum ValidationError {
    InvalidName,
    InvalidEmail,
}

/// A subscriber display name that passed validation.
#[derive(Clone, Debug)]
pub struct SubscriberName {
    name: String,
}

impl View for SubscriberName {
    type V = Seq<char>;

    closed spec fn view(&self) -> Seq<char> {
        self.name@
    }
}

impl SubscriberName {
    /// Validates a raw display name; returns it as a witness type exactly
    /// when it satisfies the name policy.
    pub fn parse(name: String) -> (r: Result<SubscriberName, ValidationError>)
        ensures
            r matches Ok(n) ==> n@ == name@ && is_valid_subscriber_name(name@),
            r is Err ==> !is_valid_subscriber_name(name@) && r == Err::<
                SubscriberName,
                ValidationError,
            >(ValidationError::InvalidName),
    {
        if check_valid_name(name.as_str()) {
            Ok(SubscriberName { name })
        } else {
            Err(ValidationError::InvalidName)
        }
    }

    /// The underlying string.
    pub fn as_str(&self) -> (r: &str)
        ensures
            r@ == self@,
    {
        self.name.as_str()
    }
}

/// A subscriber email address that passed validation.
#[derive(Clone, Debug)]
pub struct SubscriberEmail {
    email: String,
}

impl View for SubscriberEmail {
    type V = Seq<char>;

    closed spec fn view(&self) -> Seq<char> {
        self.email@
    }
}

impl SubscriberEmail {
    /// Validates a raw email address; returns it as a witness type exactly
    /// when it satisfies the email policy.
    pub fn parse(email: String) -> (r: Result<SubscriberEmail, ValidationError>)
        ensures
            r matches Ok(e) ==> e@ == email@ && is_valid_subscriber_email(email@),
            r is Err ==> !is_valid_subscriber_email(email@) && r == Err::<
                SubscriberEmail,
                ValidationError,
            >(ValidationError::InvalidEmail),
    {
        if check_valid_email(email.as_str()) {
            Ok(SubscriberEmail { email })
        } else {
            Err(ValidationError::InvalidEmail)
        }
    }

    /// The underlying string.
    pub fn as_str(&self) -> (r: &str)
        ensures
            r@ == self@,
    {
        self.email.as_str()
    }
}

/// A validated subscriber, ready to be inserted as pending.
#[derive(Clone, Debug)]
pub struct NewSubscriber {
    pub name: SubscriberName,
    pub email: SubscriberEmail,
}

/// Decides `is_valid_subscriber_name`.
fn check_valid_name(s: &str) -> (r: bool)
    ensures
        r == is_valid_subscriber_name(s@),
{
    let len = s.unicode_len();
    if len > 256 {
        return false;
    }
    let mut has_content = false;
    let mut i: usize = 0;
    while i < len
        invariant
            len == s@.len(),
            i <= len,
            has_content == exists|j: int| 0 <= j < i && !is_whitespace_char(s@[j]),
            forall|j: int| 0 <= j < i ==> !is_forbidden_name_char(s@[j]),
        decreases len - i,
    {
        let c = s.get_char(i);
        if c == '/' || c == '(' || c == ')' || c == '"' || c == '<' || c == '>' || c == '\\'
            || c == '{' || c == '}' {
            return false;
        }
        if !(c == ' ' || c == '\t' || c == '\n' || c == '\r') {
            has_content = true;
        }
        i += 1;
    }
    has_content
}

/// Decides `is_valid_subscriber_email`.
fn check_valid_email(s: &str) -> (r: bool)
    ensures
        r == is_valid_subscriber_email(s@),
{
    let len = s.unicode_len();
    if len > 256 {
        return false;
    }
    let mut at_pos: usize = 0;
    let mut seen_at = false;
    let mut i: usize = 0;
    while i < len
        invariant
            len == s@.len(),
            i <= len,
            forall|j: int| 0 <= j < i ==> !is_whitespace_char(s@[j]),
            seen_at ==> at_pos < i && s@[at_pos as int] == '@',
            forall|j: int| 0 <= j < i && (!seen_at || j != at_pos) ==> s@[j] != '@',
        decreases len - i,
    {
        let c = s.get_char(i);
        if c == ' ' || c == '\t' || c == '\n' || c == '\r' {
            return false;
        }
        if c == '@' {
            if seen_at {
                return false;
            }
            seen_at = true;
            at_pos = i;
        }
        i += 1;
    }
    seen_at && at_pos > 0 && at_pos < len - 1
}

} // verus!
