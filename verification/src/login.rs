//! The login workflow: validate the submitted credentials, then either
//! redirect to the home page, or redirect back to the login form carrying
//! a signed one-shot error message in the query string.

use vstd::prelude::*;
use vstd::string::*;

use crate::authentication::{
    spec_validate_credentials, validate_credentials, AuthError, Credentials,
};
use crate::signed_message::{sign_error_message, signed_error_query, HmacSecret};
use crate::store::Store;

verus! {

/// The raw form fields of a login request.  The password is sensitive
/// material: it is handed to credential validation as bytes and never
/// logged, printed or included in an error message.
pub struct FormData {
    pub username: String,
    pub password: String,
}

/// Why a login failed: a client-attributable rejection, or an operational
/// problem that is logged with its full cause and never shown.
#[derive(Clone, Copy, Debug, PartialEq, Eq, Structural)]
pub enum LoginError {
    AuthError,
    UnexpectedError,
}

/// The client-facing message of a login error.
pub open spec fn login_error_message(e: LoginError) -> Seq<char> {
    if e is AuthError {
        "Authentication failed"@
    } else {
        "Something went wrong"@
    }
}

impl LoginError {
    /// The client-facing message of this error.
    pub fn message(&self) -> (r: String)
        ensures
            r@ == login_error_message(*self),
    {
        match self {
            LoginError::AuthError => String::from_str("Authentication failed"),
            LoginError::UnexpectedError => String::from_str("Something went wrong"),
        }
    }
}

/// Where a login request sends the client next.
pub enum LoginOutcome {
    /// Credentials verified: redirect to the home page.
    Success { user_id: u128 },
    /// Login failed: redirect back to the login form, carrying the error
    /// message and its tag as the query string.
    Failure { error: LoginError, location_query: String },
}

/// The login workflow: validate the credentials; on success redirect
/// home, on failure sign the error message and redirect back to the form.
pub fn login(store: &Store, secret: &HmacSecret, form: FormData, fault: bool) -> (r: LoginOutcome)
    requires
        store.wf(),
    ensures
        ({
            let v = spec_validate_credentials(
                store.users@,
                form.username@,
                vstd::utf8::encode_utf8(form.password@),
                fault,
            );
            match r {
                LoginOutcome::Success { user_id } => v == Ok::<u128, AuthError>(user_id),
                LoginOutcome::Failure { error, location_query } => {
                    &&& v is Err
                    &&& (error is AuthError <==> v == Err::<u128, AuthError>(
                        AuthError::InvalidCredentials,
                    ))
                    &&& location_query@ == signed_error_query(
                        secret.0@,
                        login_error_message(error),
                    )
                },
            }
        }),
{
    let password = form.password.as_str().as_bytes_vec();
    let credentials = Credentials { username: form.username, password };
    match validate_credentials(store, &credentials, fault) {
        Ok(user_id) => LoginOutcome::Success { user_id },
        Err(e) => {
            let error = match e {
                AuthError::InvalidCredentials => LoginError::AuthError,
                AuthError::UnexpectedError => LoginError::UnexpectedError,
            };
            let message = error.message();
            let location_query = sign_error_message(secret, message.as_str());
            LoginOutcome::Failure { error, location_query }
        },
    }
}

} // verus!
