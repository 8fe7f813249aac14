//! The validated pair of name and email that a registration persists.

use vstd::prelude::*;

use crate::domain::subscriber_email::{email_is_valid, SubscriberEmail};
use crate::domain::subscriber_name::{subscriber_name_valid, SubscriberName};
use crate::registration::FormData;

verus! {

/// A subscriber whose name and email have both been validated.
#[derive(Debug)]
pub struct NewSubscriber {
    pub email: SubscriberEmail,
    pub name: SubscriberName,
}

impl NewSubscriber {
    /// Validates a raw form submission, name first: the result is `Ok`
    /// exactly when both fields are valid.
    pub fn try_from(value: FormData) -> (r: Result<NewSubscriber, String>)
        ensures
            r is Ok <==> subscriber_name_valid(value.name@) && email_is_valid(value.email@),
            r matches Ok(sub) ==> sub.name@ == value.name@ && sub.email@ == value.email@,
            r is Err && !subscriber_name_valid(value.name@) ==> r->Err_0@ == value.name@
                + " is not a valid subscriber name"@,
            r is Err && subscriber_name_valid(value.name@) ==> r->Err_0@ == "'"@ + value.email@
                + "' is not a valid email"@,
    {
        let name = match SubscriberName::parse(value.name) {
            Ok(name) => name,
            Err(e) => {
                return Err(e);
            },
        };
        let email = match SubscriberEmail::parse(value.email) {
            Ok(email) => email,
            Err(e) => {
                return Err(e);
            },
        };
        Ok(NewSubscriber { email, name })
    }
}

} // verus!
