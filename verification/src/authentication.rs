//! Credential validation: HTTP Basic credentials are decoded from the
//! Authorization header, looked up by username, and the password is
//! verified against the stored PHC-format hash with a memory-hard KDF.
//! An unknown username still performs a dummy verification against a
//! precomputed valid-format hash, so that "unknown username" and "wrong
//! password" take statistically indistinguishable time.

use vstd::prelude::*;
use vstd::string::*;
use vstd::utf8::{decode_utf8, encode_utf8, valid_utf8};

use crate::store::{has_username, username_index, Store};

verus! {

/// Credentials presented by a client: the username, and the password as
/// sensitive bytes that are never logged or echoed.
pub struct Credentials {
    pub username: String,
    pub password: Vec<u8>,
}

/// Why credential validation failed: a client-attributable rejection, or
/// an operational problem (storage or hash-parsing failure) that must be
/// handled and logged differently.
#[derive(Clone, Copy, Debug, PartialEq, Eq, Structural)]
pub enum AuthError {
    InvalidCredentials,
    UnexpectedError,
}

/// Whether a string parses in the PHC string format.  Stands for the
/// outcome of password-hash's `PasswordHash::new`.
pub uninterp spec fn phc_parses(phc: Seq<char>) -> bool;

/// Whether a password matches a PHC-format Argon2 hash.  Stands for the
/// outcome of argon2's `Argon2::verify_password`, which depends only on
/// the password bytes and the PHC string (its salt and parameters).
pub uninterp spec fn argon2_verifies(password: Seq<u8>, phc: Seq<char>) -> bool;

/// What standard-alphabet base64 decoding yields on these bytes, `None`
/// on ill-formed input.  Stands for the outcome of base64's `decode`.
pub uninterp spec fn base64_decoded(encoded: Seq<u8>) -> Option<Seq<u8>>;

/// Relies on password-hash's `PasswordHash::new` (parses exactly the PHC
/// string format) and argon2's `Argon2::verify_password` (recomputes the
/// hash with the PHC string's own salt and parameters and compares in
/// constant time): both outcomes are functions of the arguments alone.
#[verifier::external_body]
fn verify_password_hash(expected_password_hash: &str, password_candidate: &[u8]) -> (r: Option<
    bool,
>)
    ensures
        r == (if phc_parses(expected_password_hash@) {
            Some(argon2_verifies(password_candidate@, expected_password_hash@))
        } else {
            None::<bool>
        }),
{
    match argon2::PasswordHash::new(expected_password_hash) {
        Ok(parsed) => Some(
            argon2::PasswordVerifier::verify_password(
                &argon2::Argon2::default(),
                password_candidate,
                &parsed,
            ).is_ok(),
        ),
        Err(_) => None,
    }
}

/// Relies on base64's `Engine::decode` with the standard alphabet and
/// padding: decoding is a function of the input bytes alone and succeeds
/// exactly on well-formed base64.
#[verifier::external_body]
fn base64_decode_standard(encoded: &[u8]) -> (r: Option<Vec<u8>>)
    ensures
        r matches Some(v) ==> base64_decoded(encoded@) == Some(v@),
        r is None <==> base64_decoded(encoded@) is None,
{
    base64::Engine::decode(&base64::engine::general_purpose::STANDARD, encoded).ok()
}

/// Relies on `core::str::from_utf8`: succeeds exactly on valid UTF-8 and
/// yields the decoded characters.
#[verifier::external_body]
fn utf8_to_string(bytes: &[u8]) -> (r: Option<String>)
    ensures
        r is Some <==> valid_utf8(bytes@),
        r matches Some(s) ==> s@ == decode_utf8(bytes@),
{
    match core::str::from_utf8(bytes) {
        Ok(s) => Some(s.to_owned()),
        Err(_) => None,
    }
}

/// The bytes of the `Basic ` authorization-scheme prefix.
pub open spec fn basic_prefix() -> Seq<u8> {
    seq![66u8, 97u8, 115u8, 105u8, 99u8, 32u8]
}

/// The index of the first ':' in the decoded credential string, if any.
pub open spec fn first_colon(s: Seq<char>) -> Option<int>
    decreases s.len(),
{
    if s.len() == 0 {
        None
    } else if s[0] == ':' {
        Some(0int)
    } else {
        match first_colon(s.drop_first()) {
            Some(k) => Some(k + 1),
            None => None,
        }
    }
}

/// `first_colon` finds exactly the first ':'.
pub proof fn lemma_first_colon(s: Seq<char>)
    ensures
        match first_colon(s) {
            Some(k) => 0 <= k < s.len() && s[k] == ':' && (forall|j: int|
                0 <= j < k ==> s[j] != ':'),
            None => forall|j: int| 0 <= j < s.len() ==> s[j] != ':',
        },
    decreases s.len(),
{
    if s.len() > 0 && s[0] != ':' {
        let t = s.drop_first();
        lemma_first_colon(t);
        match first_colon(t) {
            Some(k) => {
                assert(t[k] == s[k + 1]);
                assert forall|j: int| 0 <= j < k + 1 implies s[j] != ':' by {
                    if j > 0 {
                        assert(s[j] == t[j - 1]);
                    }
                }
            },
            None => {
                assert forall|j: int| 0 <= j < s.len() implies s[j] != ':' by {
                    if j > 0 {
                        assert(s[j] == t[j - 1]);
                    }
                }
            },
        }
    }
}

/// What a `Basic` Authorization header value parses to: the username
/// characters and the password bytes, or `None` when the scheme is not
/// `Basic`, the payload is not base64 of UTF-8 text, or no ':' separates
/// username from password.
pub open spec fn parsed_basic_credentials(header: Seq<char>) -> Option<(Seq<char>, Seq<u8>)> {
    let bytes = encode_utf8(header);
    if bytes.len() >= 6 && bytes.subrange(0, 6) == basic_prefix() {
        match base64_decoded(bytes.skip(6)) {
            Some(decoded) => if valid_utf8(decoded) {
                let chars = decode_utf8(decoded);
                match first_colon(chars) {
                    Some(k) => Some(
                        (
                            chars.subrange(0, k),
                            encode_utf8(chars.subrange(k + 1, chars.len() as int)),
                        ),
                    ),
                    None => None,
                }
            } else {
                None
            },
            None => None,
        }
    } else {
        None
    }
}

/// Decodes HTTP Basic credentials from the Authorization header value, if
/// one was supplied; fails fast on any malformed header.
pub fn basic_authentication(authorization: Option<&String>) -> (r: Option<Credentials>)
    ensures
        authorization is None ==> r is None,
        authorization matches Some(h) ==> {
            &&& r is Some <==> parsed_basic_credentials(h@) is Some
            &&& r matches Some(c) ==> parsed_basic_credentials(h@) == Some(
                (c.username@, c.password@),
            )
        },
{
    let header = match authorization {
        Some(h) => h,
        None => { return None },
    };
    let bytes: Vec<u8> = header.as_str().as_bytes_vec();
    if bytes.len() < 6 {
        return None;
    }
    if !(bytes[0] == 66 && bytes[1] == 97 && bytes[2] == 115 && bytes[3] == 105 && bytes[4] == 99
        && bytes[5] == 32) {
        proof {
            assert(encode_utf8(header@).subrange(0, 6) != basic_prefix());
        }
        return None;
    }
    proof {
        assert(encode_utf8(header@).subrange(0, 6) =~= basic_prefix());
    }
    let mut bytes = bytes;
    let encoded = bytes.split_off(6);
    proof {
        assert(encoded@ =~= encode_utf8(header@).skip(6));
    }
    let decoded = match base64_decode_standard(encoded.as_slice()) {
        Some(d) => d,
        None => { return None },
    };
    let text = match utf8_to_string(decoded.as_slice()) {
        Some(s) => s,
        None => { return None },
    };
    let len = text.as_str().unicode_len();
    let mut i: usize = 0;
    let mut colon: usize = 0;
    let mut found = false;
    while i < len && !found
        invariant
            len == text@.len(),
            i <= len,
            found ==> i < len && colon == i && text@[colon as int] == ':',
            forall|j: int| 0 <= j < i && !(found && j == i) ==> text@[j] != ':',
        decreases len - i + (if found {
            0int
        } else {
            1int
        }),
    {
        if text.as_str().get_char(i) == ':' {
            colon = i;
            found = true;
        } else {
            i += 1;
        }
    }
    proof {
        lemma_first_colon(text@);
    }
    if !found {
        return None;
    }
    let username = text.as_str().substring_char(0, colon).to_owned();
    let password = text.as_str().substring_char(colon + 1, len).as_bytes_vec();
    proof {
        assert(first_colon(text@) == Some(colon as int));
    }
    Some(Credentials { username, password })
}

/// What credential validation returns: a storage fault is an unexpected
/// error; an unknown username or a failed verification is an invalid
/// credential; a stored hash that does not parse as a PHC string is an
/// unexpected error; otherwise the matching user id.
pub open spec fn spec_validate_credentials(
    users: Seq<crate::store::UserRow>,
    username: Seq<char>,
    password: Seq<u8>,
    fault: bool,
) -> Result<u128, AuthError> {
    if fault {
        Err(AuthError::UnexpectedError)
    } else if !has_username(users, username) {
        Err(AuthError::InvalidCredentials)
    } else {
        let row = users[username_index(users, username)];
        if !phc_parses(row.password_hash@) {
            Err(AuthError::UnexpectedError)
        } else if argon2_verifies(password, row.password_hash@) {
            Ok(row.user_id)
        } else {
            Err(AuthError::InvalidCredentials)
        }
    }
}

/// Validates a `(username, password)` pair against the credentials
/// relation.  An unknown username performs a dummy verification before
/// failing, as a timing side-channel defense; a stored hash that does not
/// parse as a PHC string is an operational error, not a client failure.
pub fn validate_credentials(store: &Store, credentials: &Credentials, fault: bool) -> (r: Result<
    u128,
    AuthError,
>)
    requires
        store.wf(),
    ensures
        r == spec_validate_credentials(
            store.users@,
            credentials.username@,
            credentials.password@,
            fault,
        ),
{
    if fault {
        return Err(AuthError::UnexpectedError);
    }
    let users = &store.users;
    let mut i: usize = 0;
    while i < users.len()
        invariant
            !fault,
            store.wf(),
            users == store.users,
            i <= users@.len(),
            forall|j: int| 0 <= j < i ==> users@[j].username@ != credentials.username@,
        decreases users@.len() - i,
    {
        if users[i].username == credentials.username {
            proof {
                let k = username_index(store.users@, credentials.username@);
                assert(users@[i as int].username@ == credentials.username@);
                assert(0 <= k < users@.len() && users@[k].username@ == credentials.username@);
                assert(k == i as int);
            }
            return match verify_password_hash(
                users[i].password_hash.as_str(),
                credentials.password.as_slice(),
            ) {
                Some(true) => Ok(users[i].user_id),
                Some(false) => Err(AuthError::InvalidCredentials),
                None => Err(AuthError::UnexpectedError),
            };
        }
        i += 1;
    }
    // Timing side-channel defense: the same verification work as for a
    // known username, against a precomputed valid-format hash.
    let _ = verify_password_hash(dummy_password_hash(), credentials.password.as_slice());
    Err(AuthError::InvalidCredentials)
}

/// A precomputed, valid-PHC-format Argon2 hash of an unrelated value, used
/// only for the dummy verification on an unknown username.
fn dummy_password_hash() -> (r: &'static str) {
    "$argon2id$v=19$m=15000,t=2,p=1$gZiV/M1gPc22ElAH/Jh1Hw$CWOrkoo7oJBQ/iyh7uJ0LO2aLEfrHwTWllSAxT0zRno"
}

} // verus!
