//! A subscriber's display name, accepted only when it is not whitespace-only,
//! not longer than 256 grapheme clusters, and free of a fixed set of
//! forbidden characters.

use unicode_segmentation::UnicodeSegmentation;
use vstd::prelude::*;
use vstd::string::*;

use crate::text::is_unicode_whitespace;

verus! {

/// A validated subscriber display name.
#[derive(Debug)]
pub struct SubscriberName(String);

/// Characters a subscriber name may not contain.
pub open spec fn is_forbidden_name_char(c: char) -> bool {
    ||| c == '/'
    ||| c == '('
    ||| c == ')'
    ||| c == '"'
    ||| c == '<'
    ||| c == '>'
    ||| c == '\\'
    ||| c == '{'
    ||| c == '}'
}

/// How many extended grapheme clusters a string divides into; decided by
/// unicode-segmentation's `graphemes(true)`, a function of the string alone.
pub uninterp spec fn grapheme_count_of(s: Seq<char>) -> nat;

/// Relies on unicode-segmentation's `graphemes(true)`: iterates the extended
/// grapheme clusters of the string, whose number depends on the string alone.
#[verifier::external_body]
fn grapheme_count(s: &str) -> (n: usize)
    ensures
        n as nat == grapheme_count_of(s@),
{
    s.graphemes(true).count()
}

/// A valid subscriber name: some non-whitespace content, at most 256 grapheme
/// clusters, and no forbidden character.
pub open spec fn subscriber_name_valid(s: Seq<char>) -> bool {
    &&& !(forall|i: int| 0 <= i < s.len() ==> is_unicode_whitespace(s[i]))
    &&& grapheme_count_of(s) <= 256
    &&& forall|i: int| 0 <= i < s.len() ==> !is_forbidden_name_char(s[i])
}

/// Whether a single character is forbidden in a subscriber name.
fn is_forbidden_char(c: char) -> (r: bool)
    ensures
        r == is_forbidden_name_char(c),
{
    c == '/' || c == '(' || c == ')' || c == '"' || c == '<' || c == '>' || c == '\\' || c == '{'
        || c == '}'
}

impl View for SubscriberName {
    type V = Seq<char>;

    closed spec fn view(&self) -> Seq<char> {
        self.0@
    }
}

impl SubscriberName {
    /// Accepts the raw name exactly when it is valid; a rejected name comes
    /// back in the error message.
    pub fn parse(s: String) -> (r: Result<SubscriberName, String>)
        ensures
            r is Ok <==> subscriber_name_valid(s@),
            r matches Ok(name) ==> name@ == s@,
            r matches Err(msg) ==> msg@ == s@ + " is not a valid subscriber name"@,
    {
        let mut all_whitespace = true;
        let mut has_forbidden = false;
        let len = s.as_str().unicode_len();
        for i in 0..len
            invariant
                len == s@.len(),
                all_whitespace == (forall|j: int| 0 <= j < i ==> is_unicode_whitespace(s@[j])),
                has_forbidden == (exists|j: int| 0 <= j < i && is_forbidden_name_char(s@[j])),
        {
            let c = s.as_str().get_char(i);
            if !c.is_whitespace() {
                all_whitespace = false;
            }
            if is_forbidden_char(c) {
                has_forbidden = true;
            }
        }
        let is_too_long = grapheme_count(s.as_str()) > 256;
        if all_whitespace || is_too_long || has_forbidden {
            Err(String::from_str(s.as_str()).concat(" is not a valid subscriber name"))
        } else {
            Ok(SubscriberName(s))
        }
    }

    /// The accepted name itself.
    pub fn as_ref(&self) -> (r: &str)
        ensures
            r@ == self@,
    {
        self.0.as_str()
    }
}

} // verus!
