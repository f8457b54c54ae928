//! The confirmation workflow: a token arriving on the confirmation link is
//! resolved to its subscriber, whose status is flipped to confirmed.
//! Confirming an already-confirmed subscriber is a no-op; an unknown token
//! is rejected without leaking whether it was malformed or merely absent.

use vstd::prelude::*;

use crate::store::{
    has_token, token_subscriber, Store, SubscriberRow, SubscriberStatus, TokenRow,
};

verus! {

/// The query parameters of a confirmation request.
pub struct Parameters {
    pub subscription_token: String,
}

/// Why a confirmation request failed.
#[derive(Clone, Copy, Debug, PartialEq, Eq, Structural)]
pub enum ConfirmationError {
    /// A storage step failed.
    UnexpectedError,
    /// No subscriber is associated with the provided token.
    UnknownToken,
}

impl ConfirmationError {
    /// The status code this error maps to at the boundary: unknown tokens
    /// are rejected as unauthorized, storage failures as a generic server
    /// error.
    pub fn status_code(&self) -> (r: u16)
        ensures
            *self is UnknownToken ==> r == 401,
            *self is UnexpectedError ==> r == 500,
    {
        match self {
            ConfirmationError::UnexpectedError => 500,
            ConfirmationError::UnknownToken => 401,
        }
    }
}

/// Which storage steps of the confirmation workflow are made to fail.
pub struct ConfirmFaults {
    pub lookup: bool,
    pub update: bool,
}

impl ConfirmFaults {
    /// Every storage step succeeds.
    pub fn none() -> (r: ConfirmFaults)
        ensures
            !r.lookup && !r.update,
    {
        ConfirmFaults { lookup: false, update: false }
    }
}

/// The subscribers relation after the row with this id (if any) is marked
/// confirmed; every other row is untouched.
pub open spec fn mark_confirmed(subs: Seq<SubscriberRow>, id: u128) -> Seq<SubscriberRow> {
    subs.map_values(
        |row: SubscriberRow|
            if row.id == id {
                SubscriberRow { status: SubscriberStatus::Confirmed, ..row }
            } else {
                row
            },
    )
}

/// Looks the token up and returns the id of the subscriber it references,
/// or `None` when no token row matches.
pub fn get_subscriber_id_from_token(
    store: &Store,
    subscription_token: &String,
    fault: bool,
) -> (r: Result<Option<u128>, crate::store::StorageError>)
    requires
        store.wf(),
    ensures
        r is Err <==> fault,
        r matches Ok(opt) ==> {
            &&& opt is Some <==> has_token(store.tokens@, subscription_token@)
            &&& opt matches Some(id) ==> id == token_subscriber(store.tokens@, subscription_token@)
        },
{
    if fault {
        return Err(crate::store::StorageError);
    }
    let tokens = &store.tokens;
    let mut i: usize = 0;
    while i < tokens.len()
        invariant
            !fault,
            store.wf(),
            tokens == store.tokens,
            i <= tokens@.len(),
            forall|j: int| 0 <= j < i ==> tokens@[j].token@ != subscription_token@,
        decreases tokens@.len() - i,
    {
        if tokens[i].token == *subscription_token {
            proof {
                let k = choose|k: int|
                    0 <= k < tokens@.len() && tokens@[k].token@ == subscription_token@;
                assert(tokens@[i as int].token@ == subscription_token@);
                assert(k == i as int);
            }
            return Ok(Some(tokens[i].subscriber_id));
        }
        i += 1;
    }
    Ok(None)
}

/// Marks the subscriber with this id (if present) as confirmed; updating a
/// subscriber that is already confirmed, or an id without a row, changes
/// nothing.
pub fn confirm_subscriber(store: &mut Store, subscriber_id: u128, fault: bool) -> (r: Result<
    (),
    crate::store::StorageError,
>)
    requires
        old(store).wf(),
    ensures
        final(store).wf(),
        final(store).tokens@ == old(store).tokens@,
        final(store).users@ == old(store).users@,
        r is Err <==> fault,
        r is Err ==> *final(store) == *old(store),
        r is Ok ==> final(store).subscribers@ == mark_confirmed(
            old(store).subscribers@,
            subscriber_id,
        ),
{
    if fault {
        return Err(crate::store::StorageError);
    }
    let ghost subs0 = store.subscribers@;
    let mut i: usize = 0;
    while i < store.subscribers.len()
        invariant
            store.subscribers@.len() == subs0.len(),
            store.tokens@ == old(store).tokens@,
            store.users@ == old(store).users@,
            i <= subs0.len(),
            forall|j: int|
                0 <= j < subs0.len() ==> store.subscribers@[j] == (if j < i && subs0[j].id
                    == subscriber_id {
                    SubscriberRow { status: SubscriberStatus::Confirmed, ..subs0[j] }
                } else {
                    subs0[j]
                }),
        decreases subs0.len() - i,
    {
        if store.subscribers[i].id == subscriber_id {
            store.subscribers[i].status = SubscriberStatus::Confirmed;
        }
        i += 1;
    }
    proof {
        assert(store.subscribers@ =~= mark_confirmed(subs0, subscriber_id));
        assert forall|a: int, b: int|
            0 <= a < b < store.subscribers@.len() implies store.subscribers@[a].id
            != store.subscribers@[b].id by {
            assert(store.subscribers@[a].id == subs0[a].id);
            assert(store.subscribers@[b].id == subs0[b].id);
        }
    }
    Ok(())
}

/// The confirmation workflow: resolve the token, then flip the referenced
/// subscriber to confirmed.  An unknown token is rejected and mutates
/// nothing; storage faults are surfaced as unexpected errors and mutate
/// nothing.
pub fn confirm(store: &mut Store, parameters: &Parameters, faults: &ConfirmFaults) -> (r: Result<
    (),
    ConfirmationError,
>)
    requires
        old(store).wf(),
    ensures
        final(store).wf(),
        final(store).tokens@ == old(store).tokens@,
        final(store).users@ == old(store).users@,
        faults.lookup ==> r == Err::<(), ConfirmationError>(ConfirmationError::UnexpectedError)
            && *final(store) == *old(store),
        !faults.lookup && !has_token(old(store).tokens@, parameters.subscription_token@) ==> r
            == Err::<(), ConfirmationError>(ConfirmationError::UnknownToken) && *final(store)
            == *old(store),
        !faults.lookup && has_token(old(store).tokens@, parameters.subscription_token@)
            && faults.update ==> r == Err::<(), ConfirmationError>(
            ConfirmationError::UnexpectedError,
        ) && *final(store) == *old(store),
        !faults.lookup && has_token(old(store).tokens@, parameters.subscription_token@)
            && !faults.update ==> r is Ok && final(store).subscribers@ == mark_confirmed(
            old(store).subscribers@,
            token_subscriber(old(store).tokens@, parameters.subscription_token@),
        ),
{
    let looked_up = match get_subscriber_id_from_token(
        store,
        &parameters.subscription_token,
        faults.lookup,
    ) {
        Ok(opt) => opt,
        Err(_) => { return Err(ConfirmationError::UnexpectedError) },
    };
    let subscriber_id = match looked_up {
        Some(id) => id,
        None => { return Err(ConfirmationError::UnknownToken) },
    };
    match confirm_subscriber(store, subscriber_id, faults.update) {
        Ok(_) => Ok(()),
        Err(_) => Err(ConfirmationError::UnexpectedError),
    }
}

/// Law: confirming twice with the same valid token is idempotent.  The
/// confirmation workflow never changes the tokens relation, so a token
/// that resolves once resolves again, both calls succeed by `confirm`'s
/// contract, the second status update leaves the subscribers exactly as
/// the first left them, and the referenced subscriber ends confirmed.
pub proof fn lemma_confirm_idempotent(subs: Seq<SubscriberRow>, id: u128)
    ensures
        mark_confirmed(mark_confirmed(subs, id), id) == mark_confirmed(subs, id),
        forall|i: int|
            0 <= i < subs.len() && subs[i].id == id ==> #[trigger] mark_confirmed(
                subs,
                id,
            )[i].status == SubscriberStatus::Confirmed,
        forall|i: int|
            0 <= i < subs.len() && subs[i].id != id ==> #[trigger] mark_confirmed(subs, id)[i]
                == subs[i],
{
    assert(mark_confirmed(mark_confirmed(subs, id), id) =~= mark_confirmed(subs, id));
}

} // verus!
