//! The confirmation email: the confirmation URL and the two message bodies
//! built around it. Both bodies embed the identical URL.

use vstd::prelude::*;
use vstd::string::*;

use crate::domain::SubscriberEmail;

verus! {

/// The message handed to the email transport: recipient, subject, and the
/// HTML and plain-text bodies.
#[derive(Debug)]
pub struct EmailMessage {
    pub to: String,
    pub subject: String,
    pub html_body: String,
    pub text_body: String,
}

/// The confirmation URL for a token, under the application's base URL.
pub open spec fn spec_confirmation_link(base_url: Seq<char>, token: Seq<char>) -> Seq<char> {
    base_url + "/subscriptions/confirm?subscription_token="@ + token
}

/// The HTML body built around a confirmation URL.
pub open spec fn spec_html_body(link: Seq<char>) -> Seq<char> {
    "Welcome to Mailbolt!<br/>Click <a href=\""@ + link + "\">here</a> to confirm your sub."@
}

/// The plain-text body built around a confirmation URL.
pub open spec fn spec_text_body(link: Seq<char>) -> Seq<char> {
    "Welcome to Mailbolt!\nVisit "@ + link + " to confirm your sub"@
}

/// Whether a message is the confirmation email for the given recipient,
/// base URL and token.
pub open spec fn spec_confirmation_email(
    m: EmailMessage,
    to: Seq<char>,
    base_url: Seq<char>,
    token: Seq<char>,
) -> bool {
    &&& m.to@ == to
    &&& m.subject@ == "Welcome!"@
    &&& m.html_body@ == spec_html_body(spec_confirmation_link(base_url, token))
    &&& m.text_body@ == spec_text_body(spec_confirmation_link(base_url, token))
}

/// The confirmation URL embedded in the confirmation email.
pub fn confirmation_link(base_url: &str, token: &str) -> (link: String)
    ensures
        link@ == spec_confirmation_link(base_url@, token@),
{
    String::from_str(base_url).concat("/subscriptions/confirm?subscription_token=").concat(token)
}

/// Builds the confirmation email for a new subscriber: subject "Welcome!",
/// and HTML and plain-text bodies that both carry the confirmation URL for
/// the given token.
pub fn build_confirmation_email(recipient: &SubscriberEmail, base_url: &str, token: &str) -> (m:
    EmailMessage)
    ensures
        m.to@ == recipient@,
        m.subject@ == "Welcome!"@,
        m.html_body@ == spec_html_body(spec_confirmation_link(base_url@, token@)),
        m.text_body@ == spec_text_body(spec_confirmation_link(base_url@, token@)),
{
    let link = confirmation_link(base_url, token);
    let html_body = String::from_str("Welcome to Mailbolt!<br/>Click <a href=\"").concat(
        link.as_str(),
    ).concat("\">here</a> to confirm your sub.");
    let text_body = String::from_str("Welcome to Mailbolt!\nVisit ").concat(link.as_str()).concat(
        " to confirm your sub",
    );
    EmailMessage {
        to: String::from_str(recipient.as_ref()),
        subject: String::from_str("Welcome!"),
        html_body,
        text_body,
    }
}

/// Both bodies of a confirmation email embed the identical confirmation URL:
/// each body is its fixed prefix, then the URL, then its fixed suffix, so the
/// URL stands in both at the position right after the prefix.
pub proof fn lemma_email_bodies_share_link(base_url: Seq<char>, token: Seq<char>)
    ensures
        ({
            let link = spec_confirmation_link(base_url, token);
            let html_prefix = "Welcome to Mailbolt!<br/>Click <a href=\""@;
            let text_prefix = "Welcome to Mailbolt!\nVisit "@;
            &&& spec_html_body(link).subrange(
                html_prefix.len() as int,
                html_prefix.len() + link.len() as int,
            ) == link
            &&& spec_text_body(link).subrange(
                text_prefix.len() as int,
                text_prefix.len() + link.len() as int,
            ) == link
        }),
{
    let link = spec_confirmation_link(base_url, token);
    let html_prefix = "Welcome to Mailbolt!<br/>Click <a href=\""@;
    let text_prefix = "Welcome to Mailbolt!\nVisit "@;
    assert(spec_html_body(link).subrange(html_prefix.len() as int, html_prefix.len() + link.len() as int)
        =~= link);
    assert(spec_text_body(link).subrange(text_prefix.len() as int, text_prefix.len() + link.len() as int)
        =~= link);
}

} // verus!
