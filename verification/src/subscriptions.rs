//! The subscription workflow: validate a raw `(name, email)` pair, insert
//! a pending subscriber and its confirmation token in one atomic
//! transaction, and build the confirmation email that is sent only after
//! the transaction committed.

use vstd::prelude::*;

use crate::application_state::{ApplicationBaseUrl, EmailMessage};
use crate::push_char;
use crate::domain::{NewSubscriber, SubscriberEmail, SubscriberName, ValidationError};
use crate::store::{
    begin, commit, has_subscriber_id, has_token, Store, StorageError, SubscriberRow,
    SubscriberStatus, TokenRow, Transaction,
};

verus! {

/// The raw form fields of a subscription request.
pub struct FormData {
    pub email: String,
    pub name: String,
}

/// Validates the raw form fields; the name is checked first, as the
/// stricter of the two policies.
pub fn parse_new_subscriber(form: FormData) -> (r: Result<NewSubscriber, ValidationError>)
    ensures
        r matches Ok(ns) ==> ns.name@ == form.name@ && ns.email@ == form.email@
            && crate::domain::is_valid_subscriber_name(form.name@)
            && crate::domain::is_valid_subscriber_email(form.email@),
        r is Err ==> !crate::domain::is_valid_subscriber_name(form.name@)
            || !crate::domain::is_valid_subscriber_email(form.email@),
{
    let name = SubscriberName::parse(form.name)?;
    let email = SubscriberEmail::parse(form.email)?;
    Ok(NewSubscriber { name, email })
}

/// An ASCII letter or digit.
pub open spec fn is_alphanumeric_char(c: char) -> bool {
    ('a' <= c && c <= 'z') || ('A' <= c && c <= 'Z') || ('0' <= c && c <= '9')
}

/// A well-formed subscription token: 25 alphanumeric characters, drawn
/// from a cryptographically secure random source.
pub open spec fn is_well_formed_token(t: Seq<char>) -> bool {
    t.len() == 25 && forall|i: int| 0 <= i < t.len() ==> is_alphanumeric_char(t[i])
}

/// Relies on rand's `Alphanumeric` distribution sampled from `thread_rng`:
/// each sample is one byte drawn uniformly from A-Z, a-z, 0-9, from a
/// cryptographically secure generator.
#[verifier::external_body]
fn sample_alphanumeric_byte() -> (r: u8)
    ensures
        is_alphanumeric_char(r as char),
{
    rand::Rng::sample(&mut rand::thread_rng(), rand::distributions::Alphanumeric)
}

/// Generates a fresh unguessable confirmation token.
pub fn generate_subscription_token() -> (r: String)
    ensures
        is_well_formed_token(r@),
{
    let mut token = String::new();
    let mut i: usize = 0;
    while i < 25
        invariant
            i <= 25,
            token@.len() == i,
            forall|j: int| 0 <= j < i ==> is_alphanumeric_char(token@[j]),
        decreases 25 - i,
    {
        let b = sample_alphanumeric_byte();
        push_char(&mut token, b as char);
        i += 1;
    }
    token
}

/// Relies on uuid's `Uuid::new_v4`: a freshly generated random id, here
/// carried as its 128-bit value.
#[verifier::external_body]
fn generate_subscriber_id() -> (r: u128) {
    uuid::Uuid::new_v4().as_u128()
}

/// Relies on chrono's `Utc::now`: the current wall-clock time, carried as
/// a unix timestamp in seconds.
#[verifier::external_body]
fn current_timestamp() -> (r: i64) {
    chrono::Utc::now().timestamp()
}

/// Which storage steps of the subscribe transaction are made to fail.
/// The caller that drives the real store reports a failed step by setting
/// its flag; tests use the same flags for fault injection.
pub struct SubscribeFaults {
    pub begin: bool,
    pub insert_subscriber: bool,
    pub store_token: bool,
    pub commit: bool,
}

impl SubscribeFaults {
    /// Some storage step fails.
    pub open spec fn any(&self) -> bool {
        self.begin || self.insert_subscriber || self.store_token || self.commit
    }

    /// Every storage step succeeds.
    pub fn none() -> (r: SubscribeFaults)
        ensures
            !r.any(),
    {
        SubscribeFaults { begin: false, insert_subscriber: false, store_token: false, commit: false }
    }
}

/// The staged subscriber row carries exactly the validated data, as
/// pending, with the given id and timestamp.
pub open spec fn subscriber_row_matches(
    row: SubscriberRow,
    ns: NewSubscriber,
    id: u128,
    at: i64,
) -> bool {
    &&& row.id == id
    &&& row.email@ == ns.email@
    &&& row.name@ == ns.name@
    &&& row.status == SubscriberStatus::PendingConfirmation
    &&& row.subscribed_at == at
}

/// Stages a new pending subscriber row inside the transaction.
pub fn insert_subscriber(
    transaction: &mut Transaction,
    new_subscriber: &NewSubscriber,
    subscriber_id: u128,
    subscribed_at: i64,
    fault: bool,
) -> (r: Result<u128, StorageError>)
    ensures
        r is Err <==> fault,
        r is Err ==> *final(transaction) == *old(transaction),
        r matches Ok(id) ==> id == subscriber_id && final(transaction).staged_tokens@ == old(
            transaction,
        ).staged_tokens@ && final(transaction).staged_subscribers@.len() == old(
            transaction,
        ).staged_subscribers@.len() + 1 && final(transaction).staged_subscribers@.drop_last() == old(
            transaction,
        ).staged_subscribers@ && subscriber_row_matches(
            final(transaction).staged_subscribers@.last(),
            *new_subscriber,
            subscriber_id,
            subscribed_at,
        ),
{
    if fault {
        return Err(StorageError);
    }
    let row = SubscriberRow {
        id: subscriber_id,
        email: new_subscriber.email.as_str().to_owned(),
        name: new_subscriber.name.as_str().to_owned(),
        status: SubscriberStatus::PendingConfirmation,
        subscribed_at,
    };
    transaction.staged_subscribers.push(row);
    proof {
        assert(final(transaction).staged_subscribers@.drop_last() =~= old(
            transaction,
        ).staged_subscribers@);
    }
    Ok(subscriber_id)
}

/// Stages the confirmation-token row referencing the new subscriber inside
/// the same transaction.
pub fn store_token(
    transaction: &mut Transaction,
    subscriber_id: u128,
    subscription_token: &String,
    fault: bool,
) -> (r: Result<(), StorageError>)
    ensures
        r is Err <==> fault,
        r is Err ==> *final(transaction) == *old(transaction),
        r is Ok ==> final(transaction).staged_subscribers@ == old(
            transaction,
        ).staged_subscribers@ && final(transaction).staged_tokens@.len() == old(
            transaction,
        ).staged_tokens@.len() + 1 && final(transaction).staged_tokens@.drop_last() == old(
            transaction,
        ).staged_tokens@ && final(transaction).staged_tokens@.last().token@ == subscription_token@
            && final(transaction).staged_tokens@.last().subscriber_id == subscriber_id,
{
    if fault {
        return Err(StorageError);
    }
    let row = TokenRow { token: subscription_token.clone(), subscriber_id };
    transaction.staged_tokens.push(row);
    proof {
        assert(final(transaction).staged_tokens@.drop_last() =~= old(transaction).staged_tokens@);
    }
    Ok(())
}

/// The link a new subscriber must visit to confirm.
pub open spec fn confirmation_link(base_url: Seq<char>, token: Seq<char>) -> Seq<char> {
    base_url + "/subscriptions/confirm?subscription_token="@ + token
}

/// The plain-text body of the confirmation email.
pub open spec fn confirmation_text_body(link: Seq<char>) -> Seq<char> {
    "Welcome to our newsletter!\nVisit "@ + link + " to confirm your subscription."@
}

/// The HTML body of the confirmation email.
pub open spec fn confirmation_html_body(link: Seq<char>) -> Seq<char> {
    "Welcome to our newsletter!<br />Click <a href=\""@ + link
        + "\">here</a> to confirm your subscription."@
}

/// Builds the confirmation email for a newly inserted subscriber.  The
/// caller sends it only after the transaction committed.
pub fn build_confirmation_email(
    base_url: &ApplicationBaseUrl,
    new_subscriber: &NewSubscriber,
    subscription_token: &String,
) -> (r: EmailMessage)
    ensures
        r.recipient@ == new_subscriber.email@,
        r.subject@ == "Welcome"@,
        r.text_body@ == confirmation_text_body(
            confirmation_link(base_url.0@, subscription_token@),
        ),
        r.html_body@ == confirmation_html_body(
            confirmation_link(base_url.0@, subscription_token@),
        ),
{
    let mut link = base_url.0.clone();
    link.append("/subscriptions/confirm?subscription_token=");
    link.append(subscription_token.as_str());

    let mut text_body: String = String::from_str("Welcome to our newsletter!\nVisit ");
    text_body.append(link.as_str());
    text_body.append(" to confirm your subscription.");

    let mut html_body: String = String::from_str("Welcome to our newsletter!<br />Click <a href=\"");
    html_body.append(link.as_str());
    html_body.append("\">here</a> to confirm your subscription.");

    EmailMessage {
        recipient: new_subscriber.email.as_str().to_owned(),
        subject: String::from_str("Welcome"),
        html_body,
        text_body,
    }
}

/// Outcome of a subscribe request, before the confirmation email is
/// dispatched.
pub enum SubscribeOutcome {
    /// The form failed validation; nothing was stored.
    BadRequest,
    /// A storage step failed; nothing was stored.
    ServerError,
    /// The subscriber and its token were committed; the carried email
    /// still has to be sent.
    Accepted(EmailMessage),
}

/// The transactional core of the subscribe workflow, with the generated
/// id, token and timestamp passed in: inserts the pending subscriber row
/// and its token row atomically.
pub fn subscribe_with(
    store: &mut Store,
    new_subscriber: &NewSubscriber,
    subscriber_id: u128,
    subscription_token: &String,
    subscribed_at: i64,
    faults: &SubscribeFaults,
) -> (r: Result<(), StorageError>)
    requires
        old(store).wf(),
    ensures
        final(store).wf(),
        final(store).users@ == old(store).users@,
        r is Ok <==> !faults.any() && !has_subscriber_id(old(store).subscribers@, subscriber_id)
            && !has_token(old(store).tokens@, subscription_token@),
        r is Err ==> *final(store) == *old(store),
        r is Ok ==> {
            &&& final(store).subscribers@.len() == old(store).subscribers@.len() + 1
            &&& final(store).subscribers@.drop_last() == old(store).subscribers@
            &&& subscriber_row_matches(
                final(store).subscribers@.last(),
                *new_subscriber,
                subscriber_id,
                subscribed_at,
            )
            &&& final(store).tokens@.len() == old(store).tokens@.len() + 1
            &&& final(store).tokens@.drop_last() == old(store).tokens@
            &&& final(store).tokens@.last().token@ == subscription_token@
            &&& final(store).tokens@.last().subscriber_id == subscriber_id
        },
{
    let mut transaction = begin(faults.begin)?;
    let subscriber_id = insert_subscriber(
        &mut transaction,
        new_subscriber,
        subscriber_id,
        subscribed_at,
        faults.insert_subscriber,
    )?;
    store_token(&mut transaction, subscriber_id, subscription_token, faults.store_token)?;
    let ghost staged_subs = transaction.staged_subscribers@;
    let ghost staged_tokens = transaction.staged_tokens@;
    let r = commit(store, transaction, faults.commit);
    proof {
        if r is Ok {
            assert(final(store).subscribers@.drop_last() =~= old(store).subscribers@);
            assert(final(store).tokens@.drop_last() =~= old(store).tokens@);
        }
    }
    r
}

/// The subscribe workflow as triggered by a request: validate, open one
/// atomic transaction, insert the subscriber and its freshly generated
/// token, commit, and hand back the confirmation email to be sent.
pub fn subscribe(
    store: &mut Store,
    base_url: &ApplicationBaseUrl,
    form: FormData,
    faults: &SubscribeFaults,
) -> (r: SubscribeOutcome)
    requires
        old(store).wf(),
    ensures
        final(store).wf(),
        final(store).users@ == old(store).users@,
        r is BadRequest <==> !crate::domain::is_valid_subscriber_name(form.name@)
            || !crate::domain::is_valid_subscriber_email(form.email@),
        (r is BadRequest || r is ServerError) ==> *final(store) == *old(store),
        faults.any() && !(r is BadRequest) ==> r is ServerError,
        r matches SubscribeOutcome::Accepted(msg) ==> {
            &&& !faults.any()
            &&& final(store).subscribers@.len() == old(store).subscribers@.len() + 1
            &&& final(store).subscribers@.drop_last() == old(store).subscribers@
            &&& final(store).subscribers@.last().email@ == form.email@
            &&& final(store).subscribers@.last().name@ == form.name@
            &&& final(store).subscribers@.last().status == SubscriberStatus::PendingConfirmation
            &&& final(store).tokens@.len() == old(store).tokens@.len() + 1
            &&& final(store).tokens@.drop_last() == old(store).tokens@
            &&& is_well_formed_token(final(store).tokens@.last().token@)
            &&& final(store).tokens@.last().subscriber_id == final(store).subscribers@.last().id
            &&& msg.recipient@ == form.email@
            &&& msg.text_body@ == confirmation_text_body(
                confirmation_link(base_url.0@, final(store).tokens@.last().token@),
            )
            &&& msg.html_body@ == confirmation_html_body(
                confirmation_link(base_url.0@, final(store).tokens@.last().token@),
            )
        },
{
    let new_subscriber = match parse_new_subscriber(form) {
        Ok(ns) => ns,
        Err(_) => { return SubscribeOutcome::BadRequest },
    };
    let subscriber_id = generate_subscriber_id();
    let subscribed_at = current_timestamp();
    let subscription_token = generate_subscription_token();
    match subscribe_with(
        store,
        &new_subscriber,
        subscriber_id,
        &subscription_token,
        subscribed_at,
        faults,
    ) {
        Ok(_) => {
            let msg = build_confirmation_email(base_url, &new_subscriber, &subscription_token);
            SubscribeOutcome::Accepted(msg)
        },
        Err(_) => SubscribeOutcome::ServerError,
    }
}

/// Status code reported for a subscribe request once the confirmation
/// email of an accepted subscription has been attempted.  A failed send is
/// reported as a server error, but the committed subscriber and token stay
/// visible: the accepted inconsistency window of the design.
pub fn subscribe_status(outcome: &SubscribeOutcome, email_sent: bool) -> (r: u16)
    ensures
        outcome is BadRequest ==> r == 400,
        outcome is ServerError ==> r == 500,
        outcome is Accepted ==> r == (if email_sent {
            200u16
        } else {
            500u16
        }),
{
    match outcome {
        SubscribeOutcome::BadRequest => 400,
        SubscribeOutcome::ServerError => 500,
        SubscribeOutcome::Accepted(_) => if email_sent {
            200
        } else {
            500
        },
    }
}

} // verus!
