//! The settings the workflow consumes: where the application listens, how
//! the email client reaches its provider, and the running environment.

use vstd::prelude::*;
use vstd::string::*;

use crate::domain::subscriber_email::{email_is_valid, SubscriberEmail};
use crate::text::{lowercase_str, lowercase_of, str_eq, trim_str, trimmed_of};

verus! {

/// Where the application listens.
#[derive(Debug)]
pub struct ApplicationSettings {
    pub port: u16,
    pub host: String,
}

/// How the email client reaches its provider: endpoint, sender address and
/// the bearer token it authenticates with.
#[derive(Debug)]
pub struct EmailClientSettings {
    pub base_url: String,
    pub sender_email: String,
    pub auth_token: String,
}

impl EmailClientSettings {
    /// The configured sender address, validated like any subscriber email.
    pub fn sender(&self) -> (r: Result<SubscriberEmail, String>)
        ensures
            r is Ok <==> email_is_valid(self.sender_email@),
            r matches Ok(email) ==> email@ == self.sender_email@,
            r matches Err(msg) ==> msg@ == "'"@ + self.sender_email@ + "' is not a valid email"@,
    {
        SubscriberEmail::parse(self.sender_email.clone())
    }
}

/// The base URL under which the application is reached from outside; the
/// confirmation links embedded in emails start with it.
#[derive(Debug)]
pub struct ApplicationBaseUrl(pub String);

/// The running environment of the process.
#[derive(Clone, Copy, Debug, PartialEq, Eq, Structural)]
pub enum Environment {
    Local,
    Prod,
}

impl Environment {
    /// The configuration-file name stem of the environment.
    pub fn as_str(&self) -> (r: &str)
        ensures
            r@ == self.spec_str(),
    {
        match self {
            Environment::Local => "local",
            Environment::Prod => "prod",
        }
    }

    pub open spec fn spec_str(self) -> Seq<char> {
        match self {
            Environment::Local => "local"@,
            Environment::Prod => "prod"@,
        }
    }

    /// Reads an environment name, ignoring case and surrounding whitespace.
    pub fn try_from(value: String) -> (r: Result<Environment, String>)
        ensures
            r == Ok::<Environment, String>(Environment::Local) <==> trimmed_of(
                lowercase_of(value@),
            ) == "local"@,
            r == Ok::<Environment, String>(Environment::Prod) <==> trimmed_of(
                lowercase_of(value@),
            ) == "prod"@,
            r matches Err(msg) ==> msg@ == trimmed_of(lowercase_of(value@))
                + " is not a suppported environment. Use either 'local' or 'prod'"@,
    {
        proof {
            reveal_strlit("local");
            reveal_strlit("prod");
            assert("local"@.len() == 5);
            assert("prod"@.len() == 4);
            assert("local"@ != "prod"@);
        }
        let lowered = lowercase_str(value.as_str());
        let trimmed = trim_str(lowered.as_str());
        if str_eq(trimmed, "local") {
            Ok(Environment::Local)
        } else if str_eq(trimmed, "prod") {
            Ok(Environment::Prod)
        } else {
            Err(
                String::from_str(trimmed).concat(
                    " is not a suppported environment. Use either 'local' or 'prod'",
                ),
            )
        }
    }
}

} // verus!
