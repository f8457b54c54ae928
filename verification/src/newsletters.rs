//! The publish workflow: decode and validate the operator's Basic
//! credentials, load every confirmed subscriber, re-parse each stored
//! email at read time, and build one outbound message per recipient that
//! still parses.  A row whose stored email is malformed is skipped, never
//! fatal; a send failure for one recipient is recorded and skipped by the
//! caller and never escalates.

use vstd::prelude::*;
use vstd::seq_lib::*;

use crate::application_state::EmailMessage;
use crate::authentication::{
    basic_authentication, parsed_basic_credentials, spec_validate_credentials,
    validate_credentials, AuthError,
};
use crate::domain::{is_valid_subscriber_email, SubscriberEmail, ValidationError};
use crate::store::{Store, StorageError, SubscriberRow, SubscriberStatus};

verus! {

/// The JSON body of a publish request.
pub struct BodyData {
    pub title: String,
    pub content: Content,
}

/// The two bodies of a newsletter issue.
pub struct Content {
    pub html: String,
    pub text: String,
}

/// Why a publish request failed before the fan-out began.
#[derive(Clone, Copy, Debug, PartialEq, Eq, Structural)]
pub enum PublishError {
    /// A storage or hash-parsing failure.
    UnexpectedError,
    /// The Authorization header was missing or malformed, or the
    /// credentials did not verify.
    AuthError,
}

impl PublishError {
    /// The status code this error maps to at the boundary.
    pub fn status_code(&self) -> (r: u16)
        ensures
            *self is AuthError ==> r == 401,
            *self is UnexpectedError ==> r == 500,
    {
        match self {
            PublishError::UnexpectedError => 500,
            PublishError::AuthError => 401,
        }
    }

    /// The authentication challenge an auth failure carries in its
    /// `WWW-Authenticate` header; other failures carry none.
    pub fn challenge(&self) -> (r: Option<String>)
        ensures
            r is Some <==> *self is AuthError,
            r matches Some(c) ==> c@ == "Basic realm=\"publish\""@,
    {
        match self {
            PublishError::AuthError => Some(
                <String as vstd::string::StringExecFns>::from_str("Basic realm=\"publish\""),
            ),
            PublishError::UnexpectedError => None,
        }
    }
}

/// A confirmed subscriber whose stored email still parses.
pub struct ConfirmedSubscriber {
    pub email: SubscriberEmail,
}

/// The confirmed rows of the subscribers relation, in store order.
pub open spec fn confirmed_rows(subs: Seq<SubscriberRow>) -> Seq<SubscriberRow> {
    subs.filter(|row: SubscriberRow| row.status == SubscriberStatus::Confirmed)
}

/// The confirmed rows whose stored email still satisfies the email
/// policy: the publish fan-out attempts exactly these recipients.
pub open spec fn publishable_rows(subs: Seq<SubscriberRow>) -> Seq<SubscriberRow> {
    confirmed_rows(subs).filter(|row: SubscriberRow| is_valid_subscriber_email(row.email@))
}

/// Which storage steps of the publish workflow are made to fail.
pub struct PublishFaults {
    pub credentials_query: bool,
    pub load_recipients: bool,
}

impl PublishFaults {
    /// Every storage step succeeds.
    pub fn none() -> (r: PublishFaults)
        ensures
            !r.credentials_query && !r.load_recipients,
    {
        PublishFaults { credentials_query: false, load_recipients: false }
    }
}

/// Loads every confirmed subscriber, re-parsing each stored email address
/// at read time: a malformed stored email is a per-row failure.
pub fn get_confirmed_subscribers(store: &Store, fault: bool) -> (r: Result<
    Vec<Result<ConfirmedSubscriber, ValidationError>>,
    StorageError,
>)
    ensures
        r is Err <==> fault,
        r matches Ok(v) ==> {
            let rows = confirmed_rows(store.subscribers@);
            &&& v@.len() == rows.len()
            &&& forall|i: int|
                0 <= i < rows.len() ==> match #[trigger] v@[i] {
                    Ok(cs) => is_valid_subscriber_email(rows[i].email@) && cs.email@
                        == rows[i].email@,
                    Err(_) => !is_valid_subscriber_email(rows[i].email@),
                }
        },
{
    if fault {
        return Err(StorageError);
    }
    let mut out: Vec<Result<ConfirmedSubscriber, ValidationError>> = Vec::new();
    let subs = &store.subscribers;
    proof {
        assert(confirmed_rows(subs@.take(0)) =~= Seq::<SubscriberRow>::empty());
    }
    let mut i: usize = 0;
    while i < subs.len()
        invariant
            subs == store.subscribers,
            i <= subs@.len(),
            out@.len() == confirmed_rows(subs@.take(i as int)).len(),
            forall|k: int|
                0 <= k < out@.len() ==> match #[trigger] out@[k] {
                    Ok(cs) => is_valid_subscriber_email(
                        confirmed_rows(subs@.take(i as int))[k].email@,
                    ) && cs.email@ == confirmed_rows(subs@.take(i as int))[k].email@,
                    Err(_) => !is_valid_subscriber_email(
                        confirmed_rows(subs@.take(i as int))[k].email@,
                    ),
                },
        decreases subs@.len() - i,
    {
        let ghost prev = confirmed_rows(subs@.take(i as int));
        proof {
            assert(subs@.take(i as int + 1).drop_last() =~= subs@.take(i as int));
            assert(subs@.take(i as int + 1).last() == subs@[i as int]);
            reveal_with_fuel(Seq::<_>::filter, 2);
            if subs@[i as int].status == SubscriberStatus::Confirmed {
                assert(confirmed_rows(subs@.take(i as int + 1)) =~= prev.push(subs@[i as int]));
            } else {
                assert(confirmed_rows(subs@.take(i as int + 1)) =~= prev);
            }
        }
        if subs[i].status == SubscriberStatus::Confirmed {
            match SubscriberEmail::parse(subs[i].email.clone()) {
                Ok(email) => out.push(Ok(ConfirmedSubscriber { email })),
                Err(e) => out.push(Err(e)),
            }
        }
        i += 1;
    }
    proof {
        assert(subs@.take(subs@.len() as int) =~= subs@);
    }
    Ok(out)
}

/// The publish workflow up to the fan-out: authenticate the operator,
/// load the confirmed recipients, and build one message per recipient
/// whose stored email still parses.  The caller attempts each returned
/// message once, in order; per-recipient failures are skipped.
pub fn publish_newsletter(
    store: &Store,
    authorization: Option<&String>,
    body: &BodyData,
    faults: &PublishFaults,
) -> (r: Result<Vec<EmailMessage>, PublishError>)
    requires
        store.wf(),
    ensures
        ({
            let parsed = match authorization {
                Some(h) => parsed_basic_credentials(h@),
                None => None,
            };
            match parsed {
                None => r == Err::<Vec<EmailMessage>, PublishError>(PublishError::AuthError),
                Some((username, password)) => {
                    let v = spec_validate_credentials(
                        store.users@,
                        username,
                        password,
                        faults.credentials_query,
                    );
                    match v {
                        Err(AuthError::InvalidCredentials) => r == Err::<
                            Vec<EmailMessage>,
                            PublishError,
                        >(PublishError::AuthError),
                        Err(AuthError::UnexpectedError) => r == Err::<
                            Vec<EmailMessage>,
                            PublishError,
                        >(PublishError::UnexpectedError),
                        Ok(_) => if faults.load_recipients {
                            r == Err::<Vec<EmailMessage>, PublishError>(
                                PublishError::UnexpectedError,
                            )
                        } else {
                            &&& r is Ok
                            &&& r matches Ok(plan) ==> {
                                let rows = publishable_rows(store.subscribers@);
                                &&& plan@.len() == rows.len()
                                &&& forall|i: int|
                                    0 <= i < rows.len() ==> {
                                        &&& (#[trigger] plan@[i]).recipient@ == rows[i].email@
                                        &&& plan@[i].subject@ == body.title@
                                        &&& plan@[i].html_body@ == body.content.html@
                                        &&& plan@[i].text_body@ == body.content.text@
                                    }
                            }
                        },
                    }
                },
            }
        }),
{
    let credentials = match basic_authentication(authorization) {
        Some(c) => c,
        None => { return Err(PublishError::AuthError) },
    };
    match validate_credentials(store, &credentials, faults.credentials_query) {
        Ok(_user_id) => {},
        Err(AuthError::InvalidCredentials) => { return Err(PublishError::AuthError) },
        Err(AuthError::UnexpectedError) => { return Err(PublishError::UnexpectedError) },
    }
    let loaded = match get_confirmed_subscribers(store, faults.load_recipients) {
        Ok(v) => v,
        Err(_) => { return Err(PublishError::UnexpectedError) },
    };
    let ghost rows = confirmed_rows(store.subscribers@);
    let mut plan: Vec<EmailMessage> = Vec::new();
    proof {
        assert(rows.take(0).filter(
            |row: SubscriberRow| is_valid_subscriber_email(row.email@),
        ) =~= Seq::<SubscriberRow>::empty());
    }
    let mut i: usize = 0;
    while i < loaded.len()
        invariant
            loaded@.len() == rows.len(),
            forall|k: int|
                0 <= k < rows.len() ==> match #[trigger] loaded@[k] {
                    Ok(cs) => is_valid_subscriber_email(rows[k].email@) && cs.email@
                        == rows[k].email@,
                    Err(_) => !is_valid_subscriber_email(rows[k].email@),
                },
            i <= rows.len(),
            plan@.len() == rows.take(i as int).filter(
                |row: SubscriberRow| is_valid_subscriber_email(row.email@),
            ).len(),
            forall|k: int|
                0 <= k < plan@.len() ==> {
                    &&& (#[trigger] plan@[k]).recipient@ == rows.take(i as int).filter(
                        |row: SubscriberRow| is_valid_subscriber_email(row.email@),
                    )[k].email@
                    &&& plan@[k].subject@ == body.title@
                    &&& plan@[k].html_body@ == body.content.html@
                    &&& plan@[k].text_body@ == body.content.text@
                },
        decreases loaded@.len() - i,
    {
        let ghost prev = rows.take(i as int).filter(
            |row: SubscriberRow| is_valid_subscriber_email(row.email@),
        );
        proof {
            assert(rows.take(i as int + 1).drop_last() =~= rows.take(i as int));
            assert(rows.take(i as int + 1).last() == rows[i as int]);
            reveal_with_fuel(Seq::<_>::filter, 2);
            if is_valid_subscriber_email(rows[i as int].email@) {
                assert(rows.take(i as int + 1).filter(
                    |row: SubscriberRow| is_valid_subscriber_email(row.email@),
                ) =~= prev.push(rows[i as int]));
            } else {
                assert(rows.take(i as int + 1).filter(
                    |row: SubscriberRow| is_valid_subscriber_email(row.email@),
                ) =~= prev);
            }
        }
        match &loaded[i] {
            Ok(subscriber) => {
                let message = EmailMessage {
                    recipient: subscriber.email.as_str().to_owned(),
                    subject: body.title.clone(),
                    html_body: body.content.html.clone(),
                    text_body: body.content.text.clone(),
                };
                plan.push(message);
            },
            Err(_) => {
                // A malformed stored email: skipped, never fatal.
            },
        }
        i += 1;
    }
    proof {
        assert(rows.take(rows.len() as int) =~= rows);
    }
    Ok(plan)
}

/// Status code of a publish request whose fan-out was reached: success
/// once every attempt has been issued, regardless of how many individual
/// sends failed.
pub fn fan_out_status(attempted: usize, send_failures: usize) -> (r: u16)
    ensures
        r == 200,
{
    let _ = attempted;
    let _ = send_failures;
    200
}

/// Law: one malformed stored email among the confirmed subscribers costs
/// exactly that one recipient: every other confirmed subscriber is still
/// attempted.
pub proof fn lemma_one_malformed_recipient_skipped(subs: Seq<SubscriberRow>, k: int)
    requires
        0 <= k < confirmed_rows(subs).len(),
        !is_valid_subscriber_email(confirmed_rows(subs)[k].email@),
        forall|i: int|
            0 <= i < confirmed_rows(subs).len() && i != k ==> is_valid_subscriber_email(
                #[trigger] confirmed_rows(subs)[i].email@,
            ),
    ensures
        publishable_rows(subs).len() == confirmed_rows(subs).len() - 1,
{
    lemma_filter_all_but_one(confirmed_rows(subs), k);
}

/// Filtering a sequence in which exactly one element fails the predicate
/// drops exactly that element.
proof fn lemma_filter_all_but_one(rows: Seq<SubscriberRow>, k: int)
    requires
        0 <= k < rows.len(),
        !is_valid_subscriber_email(rows[k].email@),
        forall|i: int|
            0 <= i < rows.len() && i != k ==> is_valid_subscriber_email(
                #[trigger] rows[i].email@,
            ),
    ensures
        rows.filter(|row: SubscriberRow| is_valid_subscriber_email(row.email@)).len() == rows.len()
            - 1,
    decreases rows.len(),
{
    reveal_with_fuel(Seq::<_>::filter, 2);
    let pred = |row: SubscriberRow| is_valid_subscriber_email(row.email@);
    if k == rows.len() - 1 {
        lemma_filter_all_valid(rows.drop_last());
    } else {
        lemma_filter_all_but_one(rows.drop_last(), k);
    }
}

/// Filtering a sequence in which every element satisfies the predicate
/// drops nothing.
proof fn lemma_filter_all_valid(rows: Seq<SubscriberRow>)
    requires
        forall|i: int|
            0 <= i < rows.len() ==> is_valid_subscriber_email(#[trigger] rows[i].email@),
    ensures
        rows.filter(|row: SubscriberRow| is_valid_subscriber_email(row.email@)).len()
            == rows.len(),
    decreases rows.len(),
{
    reveal_with_fuel(Seq::<_>::filter, 2);
    if rows.len() > 0 {
        lemma_filter_all_valid(rows.drop_last());
    }
}

} // verus!
