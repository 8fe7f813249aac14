//! A subscriber's email address, accepted only when it passes the HTML5
//! email-syntax check.

use vstd::prelude::*;
use vstd::string::*;

verus! {

/// A validated subscriber email address.
#[derive(Debug)]
pub struct SubscriberEmail(String);

/// Whether a string is a syntactically valid email address; decided by
/// validator's `validate_email`, a function of the string alone.
pub uninterp spec fn email_is_valid(s: Seq<char>) -> bool;

/// Relies on validator's `validate_email` (the HTML5 email-syntax check): the
/// result depends on the string alone; an empty string, and a string without
/// an '@', are rejected outright.
#[verifier::external_body]
fn validate_email_str(s: &str) -> (r: bool)
    ensures
        r == email_is_valid(s@),
        s@.len() == 0 ==> !r,
        (forall|i: int| 0 <= i < s@.len() ==> s@[i] != '@') ==> !r,
{
    validator::validate_email(s)
}

impl View for SubscriberEmail {
    type V = Seq<char>;

    closed spec fn view(&self) -> Seq<char> {
        self.0@
    }
}

impl SubscriberEmail {
    /// Accepts the raw address exactly when it is syntactically valid; a
    /// rejected address comes back in the error message.
    pub fn parse(s: String) -> (r: Result<SubscriberEmail, String>)
        ensures
            r is Ok <==> email_is_valid(s@),
            r matches Ok(email) ==> email@ == s@,
            r matches Err(msg) ==> msg@ == "'"@ + s@ + "' is not a valid email"@,
            s@.len() == 0 ==> r is Err,
            (forall|i: int| 0 <= i < s@.len() ==> s@[i] != '@') ==> r is Err,
    {
        if validate_email_str(s.as_str()) {
            Ok(SubscriberEmail(s))
        } else {
            Err(String::from_str("'").concat(s.as_str()).concat("' is not a valid email"))
        }
    }

    /// The accepted address itself.
    pub fn as_ref(&self) -> (r: &str)
        ensures
            r@ == self@,
    {
        self.0.as_str()
    }
}

} // verus!
