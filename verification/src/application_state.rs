//! Immutable per-application configuration handed to the workflows at
//! construction time: the public base URL used in confirmation links and
//! the outbound-mail collaborator's settings.

use vstd::prelude::*;

verus! {

/// The public base URL of the application, embedded in confirmation links.
pub struct ApplicationBaseUrl(pub String);

/// Shareable handle to the application base URL.
pub struct BaseUrlState(pub ApplicationBaseUrl);

impl BaseUrlState {
    pub fn new(base_url: ApplicationBaseUrl) -> (r: BaseUrlState)
        ensures
            r.0.0@ == base_url.0@,
    {
        BaseUrlState(base_url)
    }
}

/// Configuration of the outbound-mail collaborator: where it listens, whom
/// mail is sent as, its credential, and its per-request timeout.  The
/// collaborator itself performs one best-effort delivery attempt per
/// message and lives outside this library.
pub struct EmailClientState {
    pub api_base_url: String,
    pub sender: String,
    pub authorization_token: String,
    pub timeout_ms: u64,
}

impl EmailClientState {
    pub fn new(api_base_url: String, sender: String, authorization_token: String, timeout_ms: u64) -> (r:
        EmailClientState)
        ensures
            r.api_base_url@ == api_base_url@,
            r.sender@ == sender@,
            r.authorization_token@ == authorization_token@,
            r.timeout_ms == timeout_ms,
    {
        EmailClientState { api_base_url, sender, authorization_token, timeout_ms }
    }
}

/// One outbound email: the mail collaborator takes these four fields and
/// makes a single delivery attempt.
#[derive(Debug)]
pub struct EmailMessage {
    pub recipient: String,
    pub subject: String,
    pub html_body: String,
    pub text_body: String,
}

} // verus!
