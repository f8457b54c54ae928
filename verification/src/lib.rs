//! Verified core of a double-opt-in mailing-list service.
//!
//! Visitors subscribe with a name and an email address, confirm the
//! subscription through a mailed token, and an authenticated operator can
//! broadcast a newsletter issue to every confirmed address.  The durable
//! store is modelled in memory; the workflows that orchestrate it, the
//! credential check, and the tamper-evident signed-error protocol are
//! verified here.

use vstd::prelude::*;

pub mod application_state;
pub mod authentication;
pub mod domain;
pub mod login;
pub mod newsletters;
pub mod signed_message;
pub mod store;
pub mod subscriptions;
pub mod subscriptions_confirm;

verus! {

/// Relies on `String::push`: appends one character at the end.
#[verifier::external_body]
pub(crate) fn push_char(s: &mut String, c: char)
    ensures
        final(s)@ == old(s)@.push(c),
{
    s.push(c)
}

} // verus!
