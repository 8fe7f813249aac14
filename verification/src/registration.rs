//! The registration workflow. One request walks a fixed ladder of
//! milestones: validate the form, open a transaction, insert the subscriber
//! row, stage its confirmation token, commit, then send the confirmation
//! email. Any failure before the commit aborts with nothing persisted; a
//! failed email send after the commit leaves the subscriber durably stored
//! yet unnotified, and is answered with a server error.

use vstd::pervasive::unreached;
use vstd::prelude::*;
use vstd::string::*;

use crate::domain::subscriber_email::email_is_valid;
use crate::domain::subscriber_name::subscriber_name_valid;
use crate::domain::NewSubscriber;
use crate::email::{
    build_confirmation_email, spec_confirmation_email, EmailMessage,
};
use crate::http::HttpStatus;
use crate::store::{
    StoreView, SubscriberRowView, SubscriberStatus, SubscriptionStore, TokenRowView,
};
use crate::token::generate_subscription_token;

verus! {

/// The raw subscription form: both fields as submitted, not yet validated.
#[derive(Debug)]
pub struct FormData {
    pub name: String,
    pub email: String,
}

/// Whether a submitted form passes validation.
pub open spec fn form_valid(form: FormData) -> bool {
    subscriber_name_valid(form.name@) && email_is_valid(form.email@)
}

/// The milestone a registration request has reached, or how it ended.
/// `Aborted` is the terminal state of a request that failed before its
/// transaction was committed and carries the status it was answered with;
/// `Inconsistent` is the terminal state of a request whose rows were
/// committed but whose confirmation email was not delivered.
#[derive(Clone, Copy, Debug, PartialEq, Eq, Structural)]
pub enum RegistrationState {
    Received,
    Validated,
    TransactionOpen,
    Persisted,
    TokenStored,
    Committed,
    EmailSent,
    Aborted(HttpStatus),
    Inconsistent,
}

/// The outcome of the step the orchestrator last asked for.
#[derive(Clone, Copy, Debug, PartialEq, Eq, Structural)]
pub enum RegistrationEvent {
    FormValid,
    FormInvalid,
    TransactionBegun,
    TransactionFailed,
    SubscriberInserted,
    SubscriberInsertFailed,
    TokenStored,
    TokenStoreFailed,
    CommitSucceeded,
    CommitFailed,
    EmailAccepted,
    EmailFailed,
}

/// What the orchestrator asks its caller to do next. `Respond` ends the
/// request with the given status; `Ignore` answers an event that does not
/// belong to the current state.
#[derive(Clone, Copy, Debug, PartialEq, Eq, Structural)]
pub enum RegistrationAction {
    BeginTransaction,
    InsertSubscriber,
    StoreToken,
    CommitTransaction,
    SendConfirmationEmail,
    Respond(HttpStatus),
    Ignore,
}

/// The transition relation of one registration request: from a state and the
/// event that resolved its pending step, to the next state and the next
/// action. A validation failure is answered with 400; every later failure
/// with 500, whether or not the rows were already committed.
pub open spec fn reg_next(s: RegistrationState, e: RegistrationEvent) -> (
    RegistrationState,
    RegistrationAction,
) {
    match (s, e) {
        (RegistrationState::Received, RegistrationEvent::FormValid) => (
            RegistrationState::Validated,
            RegistrationAction::BeginTransaction,
        ),
        (RegistrationState::Received, RegistrationEvent::FormInvalid) => (
            RegistrationState::Aborted(HttpStatus::BadRequest),
            RegistrationAction::Respond(HttpStatus::BadRequest),
        ),
        (RegistrationState::Validated, RegistrationEvent::TransactionBegun) => (
            RegistrationState::TransactionOpen,
            RegistrationAction::InsertSubscriber,
        ),
        (RegistrationState::Validated, RegistrationEvent::TransactionFailed) => (
            RegistrationState::Aborted(HttpStatus::ServerError),
            RegistrationAction::Respond(HttpStatus::ServerError),
        ),
        (RegistrationState::TransactionOpen, RegistrationEvent::SubscriberInserted) => (
            RegistrationState::Persisted,
            RegistrationAction::StoreToken,
        ),
        (RegistrationState::TransactionOpen, RegistrationEvent::SubscriberInsertFailed) => (
            RegistrationState::Aborted(HttpStatus::ServerError),
            RegistrationAction::Respond(HttpStatus::ServerError),
        ),
        (RegistrationState::Persisted, RegistrationEvent::TokenStored) => (
            RegistrationState::TokenStored,
            RegistrationAction::CommitTransaction,
        ),
        (RegistrationState::Persisted, RegistrationEvent::TokenStoreFailed) => (
            RegistrationState::Aborted(HttpStatus::ServerError),
            RegistrationAction::Respond(HttpStatus::ServerError),
        ),
        (RegistrationState::TokenStored, RegistrationEvent::CommitSucceeded) => (
            RegistrationState::Committed,
            RegistrationAction::SendConfirmationEmail,
        ),
        (RegistrationState::TokenStored, RegistrationEvent::CommitFailed) => (
            RegistrationState::Aborted(HttpStatus::ServerError),
            RegistrationAction::Respond(HttpStatus::ServerError),
        ),
        (RegistrationState::Committed, RegistrationEvent::EmailAccepted) => (
            RegistrationState::EmailSent,
            RegistrationAction::Respond(HttpStatus::Success),
        ),
        (RegistrationState::Committed, RegistrationEvent::EmailFailed) => (
            RegistrationState::Inconsistent,
            RegistrationAction::Respond(HttpStatus::ServerError),
        ),
        _ => (s, RegistrationAction::Ignore),
    }
}

/// One transition of the registration orchestrator.
pub fn registration_step(s: RegistrationState, e: RegistrationEvent) -> (r: (
    RegistrationState,
    RegistrationAction,
))
    ensures
        r == reg_next(s, e),
{
    match (s, e) {
        (RegistrationState::Received, RegistrationEvent::FormValid) => (
            RegistrationState::Validated,
            RegistrationAction::BeginTransaction,
        ),
        (RegistrationState::Received, RegistrationEvent::FormInvalid) => (
            RegistrationState::Aborted(HttpStatus::BadRequest),
            RegistrationAction::Respond(HttpStatus::BadRequest),
        ),
        (RegistrationState::Validated, RegistrationEvent::TransactionBegun) => (
            RegistrationState::TransactionOpen,
            RegistrationAction::InsertSubscriber,
        ),
        (RegistrationState::Validated, RegistrationEvent::TransactionFailed) => (
            RegistrationState::Aborted(HttpStatus::ServerError),
            RegistrationAction::Respond(HttpStatus::ServerError),
        ),
        (RegistrationState::TransactionOpen, RegistrationEvent::SubscriberInserted) => (
            RegistrationState::Persisted,
            RegistrationAction::StoreToken,
        ),
        (RegistrationState::TransactionOpen, RegistrationEvent::SubscriberInsertFailed) => (
            RegistrationState::Aborted(HttpStatus::ServerError),
            RegistrationAction::Respond(HttpStatus::ServerError),
        ),
        (RegistrationState::Persisted, RegistrationEvent::TokenStored) => (
            RegistrationState::TokenStored,
            RegistrationAction::CommitTransaction,
        ),
        (RegistrationState::Persisted, RegistrationEvent::TokenStoreFailed) => (
            RegistrationState::Aborted(HttpStatus::ServerError),
            RegistrationAction::Respond(HttpStatus::ServerError),
        ),
        (RegistrationState::TokenStored, RegistrationEvent::CommitSucceeded) => (
            RegistrationState::Committed,
            RegistrationAction::SendConfirmationEmail,
        ),
        (RegistrationState::TokenStored, RegistrationEvent::CommitFailed) => (
            RegistrationState::Aborted(HttpStatus::ServerError),
            RegistrationAction::Respond(HttpStatus::ServerError),
        ),
        (RegistrationState::Committed, RegistrationEvent::EmailAccepted) => (
            RegistrationState::EmailSent,
            RegistrationAction::Respond(HttpStatus::Success),
        ),
        (RegistrationState::Committed, RegistrationEvent::EmailFailed) => (
            RegistrationState::Inconsistent,
            RegistrationAction::Respond(HttpStatus::ServerError),
        ),
        (_, _) => (s, RegistrationAction::Ignore),
    }
}

/// Which storage calls fail in transport during one request. The store
/// itself reports constraint violations; these flags stand for a storage
/// layer that could not be reached at the given step.
#[derive(Clone, Copy, Debug, PartialEq, Eq, Structural)]
pub struct StorageFaults {
    pub begin: bool,
    pub insert_subscriber: bool,
    pub store_token: bool,
    pub commit: bool,
}

impl StorageFaults {
    /// Whether any storage call fails in transport.
    pub open spec fn any(self) -> bool {
        self.begin || self.insert_subscriber || self.store_token || self.commit
    }
}

/// Whether a registration with the given id and token would violate a store
/// constraint: the id or the token is already taken.
pub open spec fn registration_conflict(v: StoreView, id: u128, token: Seq<char>) -> bool {
    v.has_subscriber(id) || v.has_token(token)
}

/// The store after a committed registration: exactly one new subscriber row,
/// status pending_confirmation, and exactly one new token row bound to it.
pub open spec fn spec_registered_store(
    v: StoreView,
    id: u128,
    name: Seq<char>,
    email: Seq<char>,
    token: Seq<char>,
    subscribed_at: i64,
) -> StoreView {
    StoreView {
        subscribers: v.subscribers.push(
            SubscriberRowView {
                id,
                email,
                name,
                subscribed_at,
                status: SubscriberStatus::PendingConfirmation,
            },
        ),
        tokens: v.tokens.push(TokenRowView { subscription_token: token, subscriber_id: id }),
    }
}

/// The status a `Respond` action answers with.
fn response_of(action: RegistrationAction) -> (s: HttpStatus)
    requires
        action matches RegistrationAction::Respond(_),
    ensures
        action == RegistrationAction::Respond(s),
{
    match action {
        RegistrationAction::Respond(status) => status,
        _ => unreached(),
    }
}

/// One registration request, run against the store with the given id, token
/// and timestamp, under the given collaborator behaviour. Exactly the
/// invalid forms are answered with 400; any storage failure or constraint
/// conflict is answered with 500 and leaves the store untouched; otherwise
/// both rows are committed together, the confirmation email for the token is
/// handed out as the one dispatch that was attempted, and the response is
/// 200 exactly when the provider accepted it.
pub fn run_registration(
    store: &mut SubscriptionStore,
    form: FormData,
    subscriber_id: u128,
    token: &str,
    subscribed_at: i64,
    base_url: &str,
    faults: StorageFaults,
    email_accepted: bool,
) -> (r: (HttpStatus, Option<EmailMessage>))
    ensures
        !form_valid(form) ==> r.0 == HttpStatus::BadRequest && r.1 is None && final(store)@ == old(
            store,
        )@,
        form_valid(form) && (faults.any() || registration_conflict(
            old(store)@,
            subscriber_id,
            token@,
        )) ==> r.0 == HttpStatus::ServerError && r.1 is None && final(store)@ == old(store)@,
        form_valid(form) && !faults.any() && !registration_conflict(
            old(store)@,
            subscriber_id,
            token@,
        ) ==> {
            &&& final(store)@ == spec_registered_store(
                old(store)@,
                subscriber_id,
                form.name@,
                form.email@,
                token@,
                subscribed_at,
            )
            &&& r.1 matches Some(m) && spec_confirmation_email(m, form.email@, base_url@, token@)
            &&& r.0 == if email_accepted {
                HttpStatus::Success
            } else {
                HttpStatus::ServerError
            }
        },
        old(store)@.wf() ==> final(store)@.wf(),
{
    let parsed = NewSubscriber::try_from(form);
    let validation_event = if parsed.is_ok() {
        RegistrationEvent::FormValid
    } else {
        RegistrationEvent::FormInvalid
    };
    let (state, action) = registration_step(RegistrationState::Received, validation_event);
    let new_subscriber = match parsed {
        Ok(new_subscriber) => new_subscriber,
        Err(_) => {
            return (response_of(action), None);
        },
    };
    let begin_event = if faults.begin {
        RegistrationEvent::TransactionFailed
    } else {
        RegistrationEvent::TransactionBegun
    };
    let (state, action) = registration_step(state, begin_event);
    if faults.begin {
        return (response_of(action), None);
    }
    let mut tx = store.begin();
    let insert_ok = if faults.insert_subscriber {
        false
    } else {
        tx.insert_subscriber(subscriber_id, &new_subscriber, subscribed_at).is_ok()
    };
    let insert_event = if insert_ok {
        RegistrationEvent::SubscriberInserted
    } else {
        RegistrationEvent::SubscriberInsertFailed
    };
    let (state, action) = registration_step(state, insert_event);
    if !insert_ok {
        return (response_of(action), None);
    }
    proof {
        assert(tx@.subscribers[tx@.subscribers.len() - 1].id == subscriber_id);
        assert(tx@.has_subscriber(subscriber_id));
    }
    let token_ok = if faults.store_token {
        false
    } else {
        tx.store_token(subscriber_id, token).is_ok()
    };
    let token_event = if token_ok {
        RegistrationEvent::TokenStored
    } else {
        RegistrationEvent::TokenStoreFailed
    };
    let (state, action) = registration_step(state, token_event);
    if !token_ok {
        return (response_of(action), None);
    }
    let commit_event = if faults.commit {
        RegistrationEvent::CommitFailed
    } else {
        RegistrationEvent::CommitSucceeded
    };
    let (state, action) = registration_step(state, commit_event);
    if faults.commit {
        return (response_of(action), None);
    }
    store.commit(tx);
    proof {
        assert(store@ =~= spec_registered_store(
            old(store)@,
            subscriber_id,
            form.name@,
            form.email@,
            token@,
            subscribed_at,
        ));
    }
    let message = build_confirmation_email(&new_subscriber.email, base_url, token);
    let email_event = if email_accepted {
        RegistrationEvent::EmailAccepted
    } else {
        RegistrationEvent::EmailFailed
    };
    let (_, action) = registration_step(state, email_event);
    (response_of(action), Some(message))
}

/// Relies on uuid's `Uuid::new_v4`: a randomly generated version-4 UUID,
/// carried here as its 128-bit value.
#[verifier::external_body]
fn fresh_subscriber_id() -> (id: u128) {
    uuid::Uuid::new_v4().as_u128()
}

/// Relies on chrono's `Utc::now`: the current UTC time, as whole seconds
/// since the Unix epoch.
#[verifier::external_body]
fn current_timestamp() -> (t: i64) {
    chrono::Utc::now().timestamp()
}

/// A committed registration for the submitted form: some fresh id and some
/// 25-character token were persisted as one subscriber row and one token row
/// on top of the previous store, and the message is the confirmation email
/// for that token.
pub open spec fn fresh_registration(
    pre: StoreView,
    post: StoreView,
    name: Seq<char>,
    email: Seq<char>,
    base_url: Seq<char>,
    m: EmailMessage,
) -> bool {
    exists|id: u128, token: Seq<char>, at: i64|
        {
            &&& token.len() == 25
            &&& post == #[trigger] spec_registered_store(pre, id, name, email, token, at)
            &&& spec_confirmation_email(m, email, base_url, token)
        }
}

/// One registration request with a freshly drawn subscriber id, confirmation
/// token and timestamp. The drawn id or token may collide with a stored one,
/// in which case the request is answered with 500 and the store is left
/// untouched; on a store that cannot conflict with any drawn pair — none of
/// its subscriber ids or 25-character tokens can come up, in particular an
/// empty store — the registration is owed and committed whatever was drawn.
pub fn register(
    store: &mut SubscriptionStore,
    form: FormData,
    base_url: &str,
    email_accepted: bool,
) -> (r: (HttpStatus, Option<EmailMessage>))
    ensures
        !form_valid(form) ==> r.0 == HttpStatus::BadRequest && r.1 is None && final(store)@ == old(
            store,
        )@,
        form_valid(form) ==> {
            ||| (r.0 == HttpStatus::ServerError && r.1 is None && final(store)@ == old(store)@)
            ||| (r.1 matches Some(m) && fresh_registration(
                old(store)@,
                final(store)@,
                form.name@,
                form.email@,
                base_url@,
                m,
            ) && r.0 == if email_accepted {
                HttpStatus::Success
            } else {
                HttpStatus::ServerError
            })
        },
        form_valid(form) && (forall|id: u128, token: Seq<char>|
            token.len() == 25 ==> !(#[trigger] registration_conflict(old(store)@, id, token)))
            ==> (r.1 matches Some(m) && fresh_registration(
            old(store)@,
            final(store)@,
            form.name@,
            form.email@,
            base_url@,
            m,
        ) && r.0 == if email_accepted {
            HttpStatus::Success
        } else {
            HttpStatus::ServerError
        }),
        old(store)@.wf() ==> final(store)@.wf(),
{
    let subscriber_id = fresh_subscriber_id();
    let token = generate_subscription_token();
    let subscribed_at = current_timestamp();
    let ghost pre = store@;
    let faults = StorageFaults {
        begin: false,
        insert_subscriber: false,
        store_token: false,
        commit: false,
    };
    let result = run_registration(
        store,
        form,
        subscriber_id,
        token.as_str(),
        subscribed_at,
        base_url,
        faults,
        email_accepted,
    );
    proof {
        if forall|id: u128, tok: Seq<char>|
            tok.len() == 25 ==> !(#[trigger] registration_conflict(pre, id, tok)) {
            assert(token@.len() == 25);
            assert(!registration_conflict(pre, subscriber_id, token@));
        }
        if form_valid(form) && !registration_conflict(pre, subscriber_id, token@) {
            assert(store@ == spec_registered_store(
                pre,
                subscriber_id,
                form.name@,
                form.email@,
                token@,
                subscribed_at,
            ));
        }
    }
    result
}

} // verus!
