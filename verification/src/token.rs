//! Confirmation-token generation: 25 characters drawn from `[A-Za-z0-9]`.

use rand::Rng;
use vstd::prelude::*;
use vstd::string::*;

verus! {

/// A character a subscription token may contain: an ASCII letter or digit.
pub open spec fn is_token_char(c: char) -> bool {
    ||| ('A' as u32) <= (c as u32) <= ('Z' as u32)
    ||| ('a' as u32) <= (c as u32) <= ('z' as u32)
    ||| ('0' as u32) <= (c as u32) <= ('9' as u32)
}

/// Relies on rand's `Alphanumeric` distribution sampled with `thread_rng`:
/// each sample is one byte drawn from `A-Z`, `a-z`, `0-9`.
#[verifier::external_body]
fn sample_alphanumeric() -> (c: String)
    ensures
        c@.len() == 1,
        is_token_char(c@[0]),
{
    let b: u8 = rand::thread_rng().sample(rand::distributions::Alphanumeric);
    (b as char).to_string()
}

/// A fresh confirmation token: 25 ASCII alphanumeric characters.
pub fn generate_subscription_token() -> (t: String)
    ensures
        t@.len() == 25,
        forall|i: int| 0 <= i < t@.len() ==> is_token_char(#[trigger] t@[i]),
{
    let mut t = String::new();
    for i in 0..25usize
        invariant
            t@.len() == i,
            forall|j: int| 0 <= j < t@.len() ==> is_token_char(#[trigger] t@[j]),
    {
        let c = sample_alphanumeric();
        t.append(c.as_str());
    }
    t
}

} // verus!
