//! In-memory model of the durable relational store: subscriber rows,
//! confirmation-token rows and credential rows, plus a transaction that
//! stages writes and makes them visible atomically at commit.
//!
//! Storage failures are injected explicitly: every operation that the real
//! store could fail takes a `fault` flag supplied by the caller, and its
//! contract states that a faulted operation changes nothing.

use vstd::prelude::*;

verus! {

/// Lifecycle of a subscriber row.
#[derive(Clone, Copy, Debug, PartialEq, Eq, Structural)]
pub enum SubscriberStatus {
    PendingConfirmation,
    Confirmed,
}

/// One row of the subscribers relation.
pub struct SubscriberRow {
    pub id: u128,
    pub email: String,
    pub name: String,
    pub status: SubscriberStatus,
    pub subscribed_at: i64,
}

/// One row of the confirmation-tokens relation.
pub struct TokenRow {
    pub token: String,
    pub subscriber_id: u128,
}

/// One row of the credentials relation.
pub struct UserRow {
    pub user_id: u128,
    pub username: String,
    pub password_hash: String,
}

/// A storage failure: any transaction or query failure of the store,
/// surfaced to clients only as a generic server error.
#[derive(Clone, Copy, Debug, PartialEq, Eq, Structural)]
pub struct StorageError;

/// The durable state: every workflow reads and writes only this.
pub struct Store {
    pub subscribers: Vec<SubscriberRow>,
    pub tokens: Vec<TokenRow>,
    pub users: Vec<UserRow>,
}

/// Some subscriber row carries this id.
pub open spec fn has_subscriber_id(subs: Seq<SubscriberRow>, id: u128) -> bool {
    exists|i: int| 0 <= i < subs.len() && subs[i].id == id
}

/// Some token row carries this token string.
pub open spec fn has_token(tokens: Seq<TokenRow>, token: Seq<char>) -> bool {
    exists|i: int| 0 <= i < tokens.len() && tokens[i].token@ == token
}

/// The subscriber id of the (unique) row holding this token.
pub open spec fn token_subscriber(tokens: Seq<TokenRow>, token: Seq<char>) -> u128 {
    tokens[choose|i: int| 0 <= i < tokens.len() && tokens[i].token@ == token].subscriber_id
}

/// Some credential row carries this username.
pub open spec fn has_username(users: Seq<UserRow>, username: Seq<char>) -> bool {
    exists|i: int| 0 <= i < users.len() && users[i].username@ == username
}

/// The index of the (unique) credential row holding this username.
pub open spec fn username_index(users: Seq<UserRow>, username: Seq<char>) -> int {
    choose|i: int| 0 <= i < users.len() && users[i].username@ == username
}

impl Store {
    /// Store invariant: subscriber ids, token strings and usernames are
    /// each unique in their relation.
    pub open spec fn wf(&self) -> bool {
        &&& forall|i: int, j: int|
            0 <= i < j < self.subscribers@.len() ==> self.subscribers@[i].id
                != self.subscribers@[j].id
        &&& forall|i: int, j: int|
            0 <= i < j < self.tokens@.len() ==> self.tokens@[i].token@ != self.tokens@[j].token@
        &&& forall|i: int, j: int|
            0 <= i < j < self.users@.len() ==> self.users@[i].username@
                != self.users@[j].username@
    }

    /// An empty store.
    pub fn new() -> (r: Store)
        ensures
            r.subscribers@ =~= Seq::<SubscriberRow>::empty(),
            r.tokens@ =~= Seq::<TokenRow>::empty(),
            r.users@ =~= Seq::<UserRow>::empty(),
            r.wf(),
    {
        Store { subscribers: Vec::new(), tokens: Vec::new(), users: Vec::new() }
    }
}

/// A transaction: writes staged by the subscribe workflow, invisible to the
/// store until `commit` succeeds.
pub struct Transaction {
    pub staged_subscribers: Vec<SubscriberRow>,
    pub staged_tokens: Vec<TokenRow>,
}

/// Opens a transaction against the store.
pub fn begin(fault: bool) -> (r: Result<Transaction, StorageError>)
    ensures
        r matches Ok(txn) ==> !fault && txn.staged_subscribers@ =~= Seq::<
            SubscriberRow,
        >::empty() && txn.staged_tokens@ =~= Seq::<TokenRow>::empty(),
        r is Err <==> fault,
{
    if fault {
        Err(StorageError)
    } else {
        Ok(Transaction { staged_subscribers: Vec::new(), staged_tokens: Vec::new() })
    }
}

/// The staged rows can become visible: no staged subscriber id or token
/// string collides with the store or with another staged row.
pub open spec fn no_conflict(store: &Store, txn: &Transaction) -> bool {
    &&& forall|i: int|
        0 <= i < txn.staged_subscribers@.len() ==> !has_subscriber_id(
            store.subscribers@,
            txn.staged_subscribers@[i].id,
        )
    &&& forall|i: int, j: int|
        0 <= i < j < txn.staged_subscribers@.len() ==> txn.staged_subscribers@[i].id
            != txn.staged_subscribers@[j].id
    &&& forall|i: int|
        0 <= i < txn.staged_tokens@.len() ==> !has_token(
            store.tokens@,
            txn.staged_tokens@[i].token@,
        )
    &&& forall|i: int, j: int|
        0 <= i < j < txn.staged_tokens@.len() ==> txn.staged_tokens@[i].token@
            != txn.staged_tokens@[j].token@
}

/// Commits a transaction.  Either every staged row becomes visible, or —
/// on a storage fault or a uniqueness conflict — none does.
pub fn commit(store: &mut Store, txn: Transaction, fault: bool) -> (r: Result<(), StorageError>)
    requires
        old(store).wf(),
    ensures
        r is Ok <==> !fault && no_conflict(old(store), &txn),
        r is Ok ==> final(store).subscribers@ == old(store).subscribers@
            + txn.staged_subscribers@ && final(store).tokens@ == old(store).tokens@
            + txn.staged_tokens@,
        r is Err ==> *final(store) == *old(store),
        final(store).users@ == old(store).users@,
        final(store).wf(),
{
    if fault {
        return Err(StorageError);
    }
    if !check_no_conflict(store, &txn) {
        return Err(StorageError);
    }
    let Transaction { mut staged_subscribers, mut staged_tokens } = txn;
    proof {
        let new_subs = store.subscribers@ + staged_subscribers@;
        let new_tokens = store.tokens@ + staged_tokens@;
        assert forall|i: int, j: int| 0 <= i < j < new_subs.len() implies new_subs[i].id
            != new_subs[j].id by {
            if j >= store.subscribers@.len() && i < store.subscribers@.len() {
                assert(!has_subscriber_id(store.subscribers@, new_subs[j].id));
            }
        }
        assert forall|i: int, j: int| 0 <= i < j < new_tokens.len() implies new_tokens[i].token@
            != new_tokens[j].token@ by {
            if j >= store.tokens@.len() && i < store.tokens@.len() {
                assert(!has_token(store.tokens@, new_tokens[j].token@));
            }
        }
    }
    store.subscribers.append(&mut staged_subscribers);
    store.tokens.append(&mut staged_tokens);
    Ok(())
}

/// Decides `no_conflict`.
fn check_no_conflict(store: &Store, txn: &Transaction) -> (r: bool)
    ensures
        r == no_conflict(store, txn),
{
    let mut i: usize = 0;
    while i < txn.staged_subscribers.len()
        invariant
            i <= txn.staged_subscribers@.len(),
            forall|k: int|
                0 <= k < i ==> !has_subscriber_id(
                    store.subscribers@,
                    txn.staged_subscribers@[k].id,
                ),
            forall|k: int, l: int|
                0 <= k < l < i ==> txn.staged_subscribers@[k].id != txn.staged_subscribers@[l].id,
        decreases txn.staged_subscribers@.len() - i,
    {
        if contains_subscriber_id(&store.subscribers, txn.staged_subscribers[i].id) {
            return false;
        }
        let mut j: usize = 0;
        while j < i
            invariant
                j <= i < txn.staged_subscribers@.len(),
                forall|l: int|
                    0 <= l < j ==> txn.staged_subscribers@[l].id
                        != txn.staged_subscribers@[i as int].id,
            decreases i - j,
        {
            if txn.staged_subscribers[j].id == txn.staged_subscribers[i].id {
                return false;
            }
            j += 1;
        }
        i += 1;
    }
    let mut i: usize = 0;
    while i < txn.staged_tokens.len()
        invariant
            i <= txn.staged_tokens@.len(),
            forall|k: int| 0 <= k < i ==> !has_token(store.tokens@, txn.staged_tokens@[k].token@),
            forall|k: int, l: int|
                0 <= k < l < i ==> txn.staged_tokens@[k].token@ != txn.staged_tokens@[l].token@,
            forall|k: int|
                0 <= k < txn.staged_subscribers@.len() ==> !has_subscriber_id(
                    store.subscribers@,
                    txn.staged_subscribers@[k].id,
                ),
            forall|k: int, l: int|
                0 <= k < l < txn.staged_subscribers@.len() ==> txn.staged_subscribers@[k].id
                    != txn.staged_subscribers@[l].id,
        decreases txn.staged_tokens@.len() - i,
    {
        if contains_token(&store.tokens, &txn.staged_tokens[i].token) {
            return false;
        }
        let mut j: usize = 0;
        while j < i
            invariant
                j <= i < txn.staged_tokens@.len(),
                forall|l: int|
                    0 <= l < j ==> txn.staged_tokens@[l].token@
                        != txn.staged_tokens@[i as int].token@,
            decreases i - j,
        {
            if txn.staged_tokens[j].token == txn.staged_tokens[i].token {
                return false;
            }
            j += 1;
        }
        i += 1;
    }
    true
}

/// Decides `has_subscriber_id`.
pub fn contains_subscriber_id(subs: &Vec<SubscriberRow>, id: u128) -> (r: bool)
    ensures
        r == has_subscriber_id(subs@, id),
{
    let mut i: usize = 0;
    while i < subs.len()
        invariant
            i <= subs@.len(),
            forall|j: int| 0 <= j < i ==> subs@[j].id != id,
        decreases subs@.len() - i,
    {
        if subs[i].id == id {
            return true;
        }
        i += 1;
    }
    false
}

/// Decides `has_token`.
pub fn contains_token(tokens: &Vec<TokenRow>, token: &String) -> (r: bool)
    ensures
        r == has_token(tokens@, token@),
{
    let mut i: usize = 0;
    while i < tokens.len()
        invariant
            i <= tokens@.len(),
            forall|j: int| 0 <= j < i ==> tokens@[j].token@ != token@,
        decreases tokens@.len() - i,
    {
        if tokens[i].token == *token {
            return true;
        }
        i += 1;
    }
    false
}

} // verus!
