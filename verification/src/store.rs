//! The subscriber repository: subscriber rows and token rows, with
//! transactional writes. Inserts are staged on a transaction and become
//! visible only when it is committed; a transaction that is dropped instead
//! leaves the store untouched.

use vstd::prelude::*;
use vstd::string::*;

use crate::domain::NewSubscriber;
use crate::text::str_eq;

verus! {

/// Lifecycle status of a subscriber row: it only ever moves from pending to
/// confirmed.
#[derive(Clone, Copy, Debug, PartialEq, Eq, Structural)]
pub enum SubscriberStatus {
    PendingConfirmation,
    Confirmed,
}

impl SubscriberStatus {
    /// The value persisted in the status column.
    pub fn as_str(&self) -> (r: &str)
        ensures
            r@ == self.spec_str(),
    {
        match self {
            SubscriberStatus::PendingConfirmation => "pending_confirmation",
            SubscriberStatus::Confirmed => "confirmed",
        }
    }

    pub open spec fn spec_str(self) -> Seq<char> {
        match self {
            SubscriberStatus::PendingConfirmation => "pending_confirmation"@,
            SubscriberStatus::Confirmed => "confirmed"@,
        }
    }
}

/// A persistence failure the store itself reports: a constraint violation.
/// A storage layer that cannot be reached at all is a failure of the
/// surrounding call, not of the store's rules.
#[derive(Clone, Copy, Debug, PartialEq, Eq, Structural)]
pub enum StorageError {
    ConstraintViolation,
}

/// One row of the subscriptions table.
#[derive(Debug)]
pub struct SubscriberRow {
    pub id: u128,
    pub email: String,
    pub name: String,
    pub subscribed_at: i64,
    pub status: SubscriberStatus,
}

/// The mathematical value of a subscriber row.
#[verifier::ext_equal]
pub struct SubscriberRowView {
    pub id: u128,
    pub email: Seq<char>,
    pub name: Seq<char>,
    pub subscribed_at: i64,
    pub status: SubscriberStatus,
}

impl View for SubscriberRow {
    type V = SubscriberRowView;

    open spec fn view(&self) -> SubscriberRowView {
        SubscriberRowView {
            id: self.id,
            email: self.email@,
            name: self.name@,
            subscribed_at: self.subscribed_at,
            status: self.status,
        }
    }
}

impl Clone for SubscriberRow {
    fn clone(&self) -> (r: Self)
        ensures
            r == *self,
    {
        SubscriberRow {
            id: self.id,
            email: self.email.clone(),
            name: self.name.clone(),
            subscribed_at: self.subscribed_at,
            status: self.status,
        }
    }
}

/// One row of the subscription_tokens table.
#[derive(Debug)]
pub struct TokenRow {
    pub subscription_token: String,
    pub subscriber_id: u128,
}

/// The mathematical value of a token row.
#[verifier::ext_equal]
pub struct TokenRowView {
    pub subscription_token: Seq<char>,
    pub subscriber_id: u128,
}

impl View for TokenRow {
    type V = TokenRowView;

    open spec fn view(&self) -> TokenRowView {
        TokenRowView {
            subscription_token: self.subscription_token@,
            subscriber_id: self.subscriber_id,
        }
    }
}

impl Clone for TokenRow {
    fn clone(&self) -> (r: Self)
        ensures
            r == *self,
    {
        TokenRow {
            subscription_token: self.subscription_token.clone(),
            subscriber_id: self.subscriber_id,
        }
    }
}

/// The mathematical value of the whole store: both tables as sequences of
/// row values.
#[verifier::ext_equal]
pub struct StoreView {
    pub subscribers: Seq<SubscriberRowView>,
    pub tokens: Seq<TokenRowView>,
}

impl StoreView {
    /// Whether some subscriber row carries the given id.
    pub open spec fn has_subscriber(self, id: u128) -> bool {
        exists|i: int| 0 <= i < self.subscribers.len() && self.subscribers[i].id == id
    }

    /// Whether some token row carries the given token.
    pub open spec fn has_token(self, token: Seq<char>) -> bool {
        exists|i: int| 0 <= i < self.tokens.len() && self.tokens[i].subscription_token == token
    }

    /// The store's integrity: subscriber ids are unique, token strings are
    /// unique, and every token row is bound to a stored subscriber — so a
    /// stored token resolves to exactly one subscriber. Constructors
    /// establish it and every operation preserves it.
    pub open spec fn wf(self) -> bool {
        &&& forall|i: int, j: int|
            0 <= i < j < self.subscribers.len() ==> (#[trigger] self.subscribers[i].id) != (
            #[trigger] self.subscribers[j].id)
        &&& forall|i: int, j: int|
            0 <= i < j < self.tokens.len() ==> (#[trigger] self.tokens[i].subscription_token) != (
            #[trigger] self.tokens[j].subscription_token)
        &&& forall|i: int|
            0 <= i < self.tokens.len() ==> self.has_subscriber(
                #[trigger] self.tokens[i].subscriber_id,
            )
    }

    /// The subscriber a stored token resolves to: the owner named by a token
    /// row carrying it. On a well-formed store that holds the token, there
    /// is exactly one such row.
    pub open spec fn token_owner(self, token: Seq<char>) -> u128 {
        let i = choose|i: int|
            0 <= i < self.tokens.len() && self.tokens[i].subscription_token == token;
        self.tokens[i].subscriber_id
    }
}

/// A subscriber row with its status set to confirmed; any other row is left
/// as it is.
pub open spec fn confirm_row(r: SubscriberRowView, id: u128) -> SubscriberRowView {
    if r.id == id {
        SubscriberRowView { status: SubscriberStatus::Confirmed, ..r }
    } else {
        r
    }
}

/// The subscriber rows after the status write of a confirmation for `id`.
pub open spec fn confirm_rows(rows: Seq<SubscriberRowView>, id: u128) -> Seq<SubscriberRowView> {
    rows.map_values(|r: SubscriberRowView| confirm_row(r, id))
}

/// The persistent store of subscribers and their confirmation tokens.
pub struct SubscriptionStore {
    subscribers: Vec<SubscriberRow>,
    tokens: Vec<TokenRow>,
}

/// The staged state of an open transaction: inserts land here and reach the
/// store only through `SubscriptionStore::commit`.
pub struct StoreTx {
    subscribers: Vec<SubscriberRow>,
    tokens: Vec<TokenRow>,
}

/// The mathematical value of a pair of tables.
pub open spec fn tables_view(subscribers: Seq<SubscriberRow>, tokens: Seq<TokenRow>) -> StoreView {
    StoreView {
        subscribers: subscribers.map_values(|r: SubscriberRow| r@),
        tokens: tokens.map_values(|r: TokenRow| r@),
    }
}

impl View for SubscriptionStore {
    type V = StoreView;

    closed spec fn view(&self) -> StoreView {
        tables_view(self.subscribers@, self.tokens@)
    }
}

impl View for StoreTx {
    type V = StoreView;

    closed spec fn view(&self) -> StoreView {
        tables_view(self.subscribers@, self.tokens@)
    }
}

/// An element-wise copy of the subscriptions table.
fn clone_subscriber_rows(rows: &Vec<SubscriberRow>) -> (r: Vec<SubscriberRow>)
    ensures
        r@ == rows@,
{
    let mut out: Vec<SubscriberRow> = Vec::new();
    let n = rows.len();
    for i in 0..n
        invariant
            n == rows@.len(),
            out@ == rows@.subrange(0, i as int),
    {
        out.push(rows[i].clone());
        proof {
            assert(out@ =~= rows@.subrange(0, i + 1));
        }
    }
    proof {
        assert(rows@.subrange(0, n as int) =~= rows@);
    }
    out
}

/// An element-wise copy of the token table.
fn clone_token_rows(rows: &Vec<TokenRow>) -> (r: Vec<TokenRow>)
    ensures
        r@ == rows@,
{
    let mut out: Vec<TokenRow> = Vec::new();
    let n = rows.len();
    for i in 0..n
        invariant
            n == rows@.len(),
            out@ == rows@.subrange(0, i as int),
    {
        out.push(rows[i].clone());
        proof {
            assert(out@ =~= rows@.subrange(0, i + 1));
        }
    }
    proof {
        assert(rows@.subrange(0, n as int) =~= rows@);
    }
    out
}

impl SubscriptionStore {
    /// An empty store.
    pub fn new() -> (s: SubscriptionStore)
        ensures
            s@.subscribers.len() == 0,
            s@.tokens.len() == 0,
            s@.wf(),
    {
        SubscriptionStore { subscribers: Vec::new(), tokens: Vec::new() }
    }

    /// Opens a transaction: a private copy of the store on which inserts are
    /// staged. Dropping the transaction without committing it leaves the
    /// store exactly as it was.
    pub fn begin(&self) -> (tx: StoreTx)
        ensures
            tx@ == self@,
    {
        StoreTx {
            subscribers: clone_subscriber_rows(&self.subscribers),
            tokens: clone_token_rows(&self.tokens),
        }
    }

    /// Commits a transaction: its staged state becomes the store's state, all
    /// of it at once.
    pub fn commit(&mut self, tx: StoreTx)
        ensures
            final(self)@ == tx@,
    {
        self.subscribers = tx.subscribers;
        self.tokens = tx.tokens;
    }

    /// Point lookup of the subscriber owning the given token; touches
    /// nothing.
    pub fn find_subscriber_id_by_token(&self, token: &str) -> (r: Option<u128>)
        ensures
            r matches Some(id) ==> exists|i: int|
                0 <= i < self@.tokens.len() && self@.tokens[i].subscription_token == token@
                    && self@.tokens[i].subscriber_id == id,
            r is None ==> !self@.has_token(token@),
    {
        let n = self.tokens.len();
        for i in 0..n
            invariant
                n == self@.tokens.len(),
                n == self.tokens@.len(),
                forall|j: int| 0 <= j < i ==> self@.tokens[j].subscription_token != token@,
        {
            if str_eq(self.tokens[i].subscription_token.as_str(), token) {
                proof {
                    assert(self@.tokens[i as int] == self.tokens@[i as int]@);
                }
                return Some(self.tokens[i].subscriber_id);
            }
        }
        None
    }

    /// Sets the status of every subscriber row carrying the given id to
    /// confirmed; a repeated write for the same id changes nothing further.
    pub fn confirm_subscriber(&mut self, subscriber_id: u128)
        ensures
            final(self)@.subscribers == confirm_rows(old(self)@.subscribers, subscriber_id),
            final(self)@.tokens == old(self)@.tokens,
            old(self)@.wf() ==> final(self)@.wf(),
    {
        let n = self.subscribers.len();
        for i in 0..n
            invariant
                n == self.subscribers@.len(),
                self.subscribers@.len() == old(self).subscribers@.len(),
                self.tokens@ == old(self).tokens@,
                forall|j: int| 0 <= j < i ==> #[trigger] self.subscribers@[j]@ == confirm_row(
                    old(self).subscribers@[j]@,
                    subscriber_id,
                ),
                forall|j: int| i <= j < n ==> #[trigger] self.subscribers@[j]@ == old(
                    self,
                ).subscribers@[j]@,
        {
            if self.subscribers[i].id == subscriber_id {
                let ghost pre = self.subscribers@[i as int]@;
                proof {
                    assert(pre == old(self).subscribers@[i as int]@);
                    assert(pre.id == subscriber_id);
                }
                self.subscribers[i].status = SubscriberStatus::Confirmed;
                proof {
                    assert(self.subscribers@[i as int]@ =~= SubscriberRowView {
                        status: SubscriberStatus::Confirmed,
                        ..pre
                    });
                    assert(self.subscribers@[i as int]@ =~= confirm_row(pre, subscriber_id));
                }
            } else {
                proof {
                    assert(self.subscribers@[i as int]@ =~= confirm_row(
                        old(self).subscribers@[i as int]@,
                        subscriber_id,
                    ));
                }
            }
        }
        proof {
            assert(self@.subscribers =~= confirm_rows(old(self)@.subscribers, subscriber_id));
            assert(self@.tokens =~= old(self)@.tokens);
            if old(self)@.wf() {
                assert forall|k: int| 0 <= k < self@.tokens.len() implies self@.has_subscriber(
                    #[trigger] self@.tokens[k].subscriber_id,
                ) by {
                    let w = choose|w: int|
                        0 <= w < old(self)@.subscribers.len() && old(self)@.subscribers[w].id
                            == old(self)@.tokens[k].subscriber_id;
                    assert(self@.subscribers[w].id == self@.tokens[k].subscriber_id);
                }
                assert(self@.wf());
            }
        }
    }

    /// The subscriptions table, for inspection.
    pub fn subscribers(&self) -> (r: &Vec<SubscriberRow>)
        ensures
            r@.map_values(|row: SubscriberRow| row@) == self@.subscribers,
    {
        &self.subscribers
    }

    /// The token table, for inspection.
    pub fn tokens(&self) -> (r: &Vec<TokenRow>)
        ensures
            r@.map_values(|row: TokenRow| row@) == self@.tokens,
    {
        &self.tokens
    }
}

impl StoreTx {
    /// Stages one subscriber row, status pending_confirmation. Succeeds
    /// exactly when the id is not taken; on failure the staged state is
    /// untouched.
    pub fn insert_subscriber(
        &mut self,
        id: u128,
        subscriber: &NewSubscriber,
        subscribed_at: i64,
    ) -> (r: Result<(), StorageError>)
        ensures
            r is Ok <==> !old(self)@.has_subscriber(id),
            r is Ok ==> final(self)@.subscribers == old(self)@.subscribers.push(
                SubscriberRowView {
                    id,
                    email: subscriber.email@,
                    name: subscriber.name@,
                    subscribed_at,
                    status: SubscriberStatus::PendingConfirmation,
                },
            ),
            r is Err ==> final(self)@.subscribers == old(self)@.subscribers,
            final(self)@.tokens == old(self)@.tokens,
            r is Err ==> r->Err_0 == StorageError::ConstraintViolation,
            old(self)@.wf() ==> final(self)@.wf(),
    {
        let n = self.subscribers.len();
        for i in 0..n
            invariant
                n == self.subscribers@.len(),
                forall|j: int| 0 <= j < i ==> self@.subscribers[j].id != id,
        {
            if self.subscribers[i].id == id {
                proof {
                    assert(old(self)@.subscribers[i as int].id == id);
                }
                return Err(StorageError::ConstraintViolation);
            }
        }
        let row = SubscriberRow {
            id,
            email: String::from_str(subscriber.email.as_ref()),
            name: String::from_str(subscriber.name.as_ref()),
            subscribed_at,
            status: SubscriberStatus::PendingConfirmation,
        };
        self.subscribers.push(row);
        proof {
            assert(self@.subscribers =~= old(self)@.subscribers.push(
                SubscriberRowView {
                    id,
                    email: subscriber.email@,
                    name: subscriber.name@,
                    subscribed_at,
                    status: SubscriberStatus::PendingConfirmation,
                },
            ));
            assert(self@.tokens =~= old(self)@.tokens);
            if old(self)@.wf() {
                assert forall|k: int| 0 <= k < self@.tokens.len() implies self@.has_subscriber(
                    #[trigger] self@.tokens[k].subscriber_id,
                ) by {
                    let w = choose|w: int|
                        0 <= w < old(self)@.subscribers.len() && old(self)@.subscribers[w].id
                            == old(self)@.tokens[k].subscriber_id;
                    assert(self@.subscribers[w].id == self@.tokens[k].subscriber_id);
                }
                assert(self@.wf());
            }
        }
        Ok(())
    }

    /// Stages one token row bound to a subscriber id. Succeeds exactly when
    /// the token is not taken and the subscriber row is staged; on failure
    /// the staged state is untouched.
    pub fn store_token(&mut self, subscriber_id: u128, subscription_token: &str) -> (r: Result<
        (),
        StorageError,
    >)
        ensures
            r is Ok <==> !old(self)@.has_token(subscription_token@) && old(self)@.has_subscriber(
                subscriber_id,
            ),
            r is Ok ==> final(self)@.tokens == old(self)@.tokens.push(
                TokenRowView { subscription_token: subscription_token@, subscriber_id },
            ),
            r is Err ==> final(self)@.tokens == old(self)@.tokens,
            final(self)@.subscribers == old(self)@.subscribers,
            r is Err ==> r->Err_0 == StorageError::ConstraintViolation,
            old(self)@.wf() ==> final(self)@.wf(),
    {
        let n = self.tokens.len();
        for i in 0..n
            invariant
                n == self.tokens@.len(),
                forall|j: int| 0 <= j < i ==> self@.tokens[j].subscription_token
                    != subscription_token@,
        {
            if str_eq(self.tokens[i].subscription_token.as_str(), subscription_token) {
                proof {
                    assert(old(self)@.tokens[i as int].subscription_token == subscription_token@);
                }
                return Err(StorageError::ConstraintViolation);
            }
        }
        let mut subscriber_staged = false;
        let m = self.subscribers.len();
        for i in 0..m
            invariant
                m == self.subscribers@.len(),
                subscriber_staged == (exists|j: int|
                    0 <= j < i && self@.subscribers[j].id == subscriber_id),
        {
            if self.subscribers[i].id == subscriber_id {
                proof {
                    assert(self@.subscribers[i as int].id == subscriber_id);
                }
                subscriber_staged = true;
            }
        }
        if !subscriber_staged {
            return Err(StorageError::ConstraintViolation);
        }
        let row = TokenRow {
            subscription_token: String::from_str(subscription_token),
            subscriber_id,
        };
        self.tokens.push(row);
        proof {
            assert(self@.tokens =~= old(self)@.tokens.push(
                TokenRowView { subscription_token: subscription_token@, subscriber_id },
            ));
            assert(self@.subscribers =~= old(self)@.subscribers);
            if old(self)@.wf() {
                assert forall|k: int| 0 <= k < self@.tokens.len() implies self@.has_subscriber(
                    #[trigger] self@.tokens[k].subscriber_id,
                ) by {
                    if k < old(self)@.tokens.len() {
                        let w = choose|w: int|
                            0 <= w < old(self)@.subscribers.len() && old(self)@.subscribers[w].id
                                == old(self)@.tokens[k].subscriber_id;
                        assert(self@.subscribers[w].id == self@.tokens[k].subscriber_id);
                    } else {
                        let w = choose|w: int|
                            0 <= w < old(self)@.subscribers.len() && old(self)@.subscribers[w].id
                                == subscriber_id;
                        assert(self@.subscribers[w].id == self@.tokens[k].subscriber_id);
                    }
                }
                assert(self@.wf());
            }
        }
        Ok(())
    }
}

} // verus!
