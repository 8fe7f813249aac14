//! Small string utilities shared by the workflow: character-wise equality of
//! string slices, and trusted specifications for the std case-folding,
//! trimming and whitespace tests that the input rules are phrased over.

use vstd::prelude::*;
use vstd::string::*;

verus! {

/// Whether a character has the Unicode `White_Space` property, as decided by
/// `char::is_whitespace` of std.
pub uninterp spec fn is_unicode_whitespace(c: char) -> bool;

/// Relies on `char::is_whitespace` of std: true exactly on characters with
/// the Unicode `White_Space` property, a function of the character alone.
pub assume_specification[ char::is_whitespace ](c: char) -> (r: bool)
    ensures
        r == is_unicode_whitespace(c),
;

/// The string without its leading and trailing whitespace: what `str::trim`
/// of std returns.
pub open spec fn trimmed_of(s: Seq<char>) -> Seq<char>
    decreases s.len(),
{
    if s.len() == 0 {
        s
    } else if is_unicode_whitespace(s[0]) {
        trimmed_of(s.subrange(1, s.len() as int))
    } else if is_unicode_whitespace(s[s.len() - 1]) {
        trimmed_of(s.subrange(0, s.len() - 1))
    } else {
        s
    }
}

/// Relies on `str::trim` of std: removes exactly the leading and trailing
/// characters with the Unicode `White_Space` property.
#[verifier::external_body]
pub fn trim_str(s: &str) -> (r: &str)
    ensures
        r@ == trimmed_of(s@),
{
    s.trim()
}

/// What `str::to_lowercase` of std returns; a function of the string alone.
pub uninterp spec fn lowercase_of(s: Seq<char>) -> Seq<char>;

/// Relies on `str::to_lowercase` of std: the Unicode lowercase mapping of the
/// string; an empty string stays empty.
#[verifier::external_body]
pub fn lowercase_str(s: &str) -> (r: String)
    ensures
        r@ == lowercase_of(s@),
        s@.len() == 0 ==> r@.len() == 0,
{
    s.to_lowercase()
}

/// Character-for-character equality of two string slices.
pub fn str_eq(a: &str, b: &str) -> (r: bool)
    ensures
        r == (a@ == b@),
{
    let a_len = a.unicode_len();
    let b_len = b.unicode_len();
    if a_len != b_len {
        return false;
    }
    for i in 0..a_len
        invariant
            a_len == a@.len(),
            b_len == b@.len(),
            a_len == b_len,
            forall|j: int| 0 <= j < i ==> a@[j] == b@[j],
    {
        if a.get_char(i) != b.get_char(i) {
            return false;
        }
    }
    proof {
        assert(a@ =~= b@);
    }
    true
}

} // verus!
