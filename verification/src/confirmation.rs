//! The confirmation workflow: resolve a submitted token to its subscriber
//! and promote that subscriber to confirmed. A missing token parameter is
//! answered with 400, an unknown token with 401, a storage failure with 500,
//! and a completed status write with 200. The status write is idempotent:
//! repeating a confirmation changes nothing and is answered with 200 again.

use vstd::prelude::*;

use crate::http::HttpStatus;
use crate::store::{confirm_row, confirm_rows, StoreView, SubscriptionStore};

verus! {

/// The query parameters of a confirmation request.
#[derive(Debug)]
pub struct Parameters {
    subscription_token: String,
}

impl View for Parameters {
    type V = Seq<char>;

    closed spec fn view(&self) -> Seq<char> {
        self.subscription_token@
    }
}

impl Parameters {
    /// Parameters carrying the given token.
    pub fn new(subscription_token: String) -> (p: Parameters)
        ensures
            p@ == subscription_token@,
    {
        Parameters { subscription_token }
    }

    /// The submitted token.
    pub fn subscription_token(&self) -> (t: &str)
        ensures
            t@ == self@,
    {
        self.subscription_token.as_str()
    }
}

/// What the storage layer reported for a token lookup: the owning
/// subscriber, no row at all, or a failure to answer.
#[derive(Clone, Copy, Debug, PartialEq, Eq, Structural)]
pub enum TokenLookup {
    Found(u128),
    Unknown,
    LookupFailed,
}

/// What the confirmation handler does after the token lookup: answer right
/// away, or write the confirmed status for the resolved subscriber.
#[derive(Clone, Copy, Debug, PartialEq, Eq, Structural)]
pub enum ConfirmStep {
    Respond(HttpStatus),
    MarkConfirmed(u128),
}

/// The decision taken on a token-lookup outcome: an unknown token is
/// answered with 401, a failed lookup with 500, and a resolved subscriber
/// gets the status write.
pub open spec fn spec_confirm_decision(lookup: TokenLookup) -> ConfirmStep {
    match lookup {
        TokenLookup::Found(id) => ConfirmStep::MarkConfirmed(id),
        TokenLookup::Unknown => ConfirmStep::Respond(HttpStatus::Unauthorized),
        TokenLookup::LookupFailed => ConfirmStep::Respond(HttpStatus::ServerError),
    }
}

/// Decides what a confirmation request does after its token lookup.
pub fn confirm_decision(lookup: TokenLookup) -> (s: ConfirmStep)
    ensures
        s == spec_confirm_decision(lookup),
{
    match lookup {
        TokenLookup::Found(id) => ConfirmStep::MarkConfirmed(id),
        TokenLookup::Unknown => ConfirmStep::Respond(HttpStatus::Unauthorized),
        TokenLookup::LookupFailed => ConfirmStep::Respond(HttpStatus::ServerError),
    }
}

/// The response once the status write has run: 200 when it went through,
/// 500 when storage failed.
pub fn confirm_update_response(update_ok: bool) -> (s: HttpStatus)
    ensures
        s == if update_ok {
            HttpStatus::Success
        } else {
            HttpStatus::ServerError
        },
{
    if update_ok {
        HttpStatus::Success
    } else {
        HttpStatus::ServerError
    }
}

/// The store after a confirmation for a token it holds: the rows of the
/// token's subscriber set to confirmed, every other row, every other column
/// and the token table untouched.
pub open spec fn spec_confirmed_store(v: StoreView, token: Seq<char>) -> StoreView {
    StoreView { subscribers: confirm_rows(v.subscribers, v.token_owner(token)), tokens: v.tokens }
}

/// One confirmation request, run against the store under the given
/// collaborator behaviour. A request without a token parameter is answered
/// with 400; a token the store does not know with 401, mutating nothing; a
/// storage failure with 500, mutating nothing; otherwise the answer is 200
/// and — on a well-formed store, where the token resolves to exactly one
/// subscriber — precisely that subscriber's rows are set to confirmed.
pub fn run_confirmation(
    store: &mut SubscriptionStore,
    token: Option<&str>,
    lookup_fails: bool,
    update_fails: bool,
) -> (r: HttpStatus)
    ensures
        token is None ==> r == HttpStatus::BadRequest && final(store)@ == old(store)@,
        token matches Some(t) && lookup_fails ==> r == HttpStatus::ServerError && final(store)@
            == old(store)@,
        token matches Some(t) && !lookup_fails && !old(store)@.has_token(t@) ==> r
            == HttpStatus::Unauthorized && final(store)@ == old(store)@,
        token matches Some(t) && !lookup_fails && old(store)@.has_token(t@) && update_fails ==> r
            == HttpStatus::ServerError && final(store)@ == old(store)@,
        token matches Some(t) && !lookup_fails && old(store)@.has_token(t@) && !update_fails ==> r
            == HttpStatus::Success && final(store)@.tokens == old(store)@.tokens && exists|i: int|
            {
                &&& 0 <= i < old(store)@.tokens.len()
                &&& old(store)@.tokens[i].subscription_token == token.unwrap()@
                &&& final(store)@.subscribers == confirm_rows(
                    old(store)@.subscribers,
                    #[trigger] old(store)@.tokens[i].subscriber_id,
                )
            },
        token matches Some(t) && !lookup_fails && old(store)@.has_token(t@) && !update_fails && old(
            store,
        )@.wf() ==> final(store)@ == spec_confirmed_store(old(store)@, token.unwrap()@),
        old(store)@.wf() ==> final(store)@.wf(),
{
    let t = match token {
        Some(t) => t,
        None => {
            return HttpStatus::BadRequest;
        },
    };
    let lookup = if lookup_fails {
        TokenLookup::LookupFailed
    } else {
        match store.find_subscriber_id_by_token(t) {
            Some(id) => TokenLookup::Found(id),
            None => TokenLookup::Unknown,
        }
    };
    let subscriber_id = match confirm_decision(lookup) {
        ConfirmStep::Respond(status) => {
            return status;
        },
        ConfirmStep::MarkConfirmed(id) => id,
    };
    if update_fails {
        return confirm_update_response(false);
    }
    store.confirm_subscriber(subscriber_id);
    proof {
        if old(store)@.wf() {
            let v = old(store)@;
            let j = choose|j: int|
                0 <= j < v.tokens.len() && v.tokens[j].subscription_token == t@
                    && v.tokens[j].subscriber_id == subscriber_id;
            let k = choose|i: int|
                0 <= i < v.tokens.len() && v.tokens[i].subscription_token == t@;
            assert(0 <= k < v.tokens.len() && v.tokens[k].subscription_token == t@);
            assert(j == k);
            assert(v.token_owner(t@) == subscriber_id);
            assert(store@ =~= spec_confirmed_store(v, t@));
        }
    }
    confirm_update_response(true)
}

/// Confirming is idempotent, request for request: on a well-formed store
/// that holds the token, the first confirmation keeps the store well-formed
/// and the token resolvable, and a second confirmation for the same token
/// leaves the store exactly as the first left it — so the repeated request
/// takes the success path again and is answered with 200 as before.
pub proof fn lemma_confirmation_idempotent(v: StoreView, token: Seq<char>)
    requires
        v.wf(),
        v.has_token(token),
    ensures
        spec_confirmed_store(v, token).wf(),
        spec_confirmed_store(v, token).has_token(token),
        spec_confirmed_store(spec_confirmed_store(v, token), token) == spec_confirmed_store(
            v,
            token,
        ),
{
    let id = v.token_owner(token);
    let once = spec_confirmed_store(v, token);
    let k = choose|i: int| 0 <= i < v.tokens.len() && v.tokens[i].subscription_token == token;
    assert(0 <= k < v.tokens.len() && v.tokens[k].subscription_token == token);
    assert(id == v.tokens[k].subscriber_id);

    // The status write touches no id and no token row.
    assert forall|i: int| 0 <= i < once.subscribers.len() implies (#[trigger] once.subscribers[i])
        == confirm_row(v.subscribers[i], id) by {}
    assert forall|w: int| 0 <= w < once.tokens.len() implies once.has_subscriber(
        #[trigger] once.tokens[w].subscriber_id,
    ) by {
        let s = choose|s: int|
            0 <= s < v.subscribers.len() && v.subscribers[s].id == v.tokens[w].subscriber_id;
        assert(once.subscribers[s].id == once.tokens[w].subscriber_id);
    }
    assert(once.wf());
    assert(once.tokens[k].subscription_token == token);
    assert(once.has_token(token));

    // A second confirmation resolves the same subscriber: the store holds
    // exactly one row with this token.
    let k2 = choose|i: int|
        0 <= i < once.tokens.len() && once.tokens[i].subscription_token == token;
    assert(0 <= k2 < once.tokens.len() && once.tokens[k2].subscription_token == token);
    assert(v.tokens[k2].subscription_token == token);
    assert(k2 == k);
    assert(once.token_owner(token) == id);

    // And writing the confirmed status again changes no row.
    assert forall|i: int| 0 <= i < once.subscribers.len() implies #[trigger] confirm_row(
        once.subscribers[i],
        id,
    ) == once.subscribers[i] by {
        assert(once.subscribers[i] == confirm_row(v.subscribers[i], id));
    }
    assert(confirm_rows(once.subscribers, id) =~= once.subscribers);
    assert(spec_confirmed_store(once, token) =~= once);
}

} // verus!
