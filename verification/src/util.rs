//! Small verified string helpers shared across the crate.

use vstd::prelude::*;
use vstd::string::StrSliceExecFns;

verus! {

/// Relies on `String::push`: appends one character to the string.
#[verifier::external_body]
pub(crate) fn push_char(s: &mut String, c: char)
    ensures
        final(s)@ == old(s)@.push(c),
{
    s.push(c);
}

/// Whether `c` is one of the four ASCII whitespace characters this crate
/// treats as blank.
pub open spec fn is_ws_char(c: char) -> bool {
    c == ' ' || c == '\t' || c == '\n' || c == '\r'
}

/// Whether every character of `s` is whitespace (an empty text is blank).
pub open spec fn is_blank(s: Seq<char>) -> bool {
    forall|i: int| 0 <= i < s.len() ==> is_ws_char(#[trigger] s[i])
}

/// Whether an optional field is absent or whitespace-only.
pub open spec fn opt_blank(o: Option<String>) -> bool {
    match o {
        None => true,
        Some(s) => is_blank(s@),
    }
}

/// Whether an optional field holds a non-empty text.
pub open spec fn opt_nonempty(o: Option<String>) -> bool {
    match o {
        None => false,
        Some(s) => s@.len() > 0,
    }
}

fn ws_char(c: char) -> (r: bool)
    ensures
        r == is_ws_char(c),
{
    c == ' ' || c == '\t' || c == '\n' || c == '\r'
}

/// Checks whether `s` is whitespace-only.
pub fn all_blank(s: &str) -> (r: bool)
    ensures
        r == is_blank(s@),
{
    let n = s.unicode_len();
    let mut i: usize = 0;
    while i < n
        invariant
            n == s@.len(),
            i <= n,
            forall|j: int| 0 <= j < i ==> is_ws_char(#[trigger] s@[j]),
        decreases n - i,
    {
        if !ws_char(s.get_char(i)) {
            return false;
        }
        i = i + 1;
    }
    true
}

/// Checks whether an optional field is absent or whitespace-only.
pub fn opt_all_blank(o: &Option<String>) -> (r: bool)
    ensures
        r == opt_blank(*o),
{
    match o {
        None => true,
        Some(s) => all_blank(s.as_str()),
    }
}

/// Compares two string slices by their character sequences.
pub fn str_eq(a: &str, b: &str) -> (r: bool)
    ensures
        r == (a@ == b@),
{
    let n = a.unicode_len();
    if n != b.unicode_len() {
        return false;
    }
    let mut i: usize = 0;
    while i < n
        invariant
            n == a@.len(),
            n == b@.len(),
            i <= n,
            forall|j: int| 0 <= j < i ==> a@[j] == b@[j],
        decreases n - i,
    {
        if a.get_char(i) != b.get_char(i) {
            proof {
                assert(a@ != b@);
            }
            return false;
        }
        i = i + 1;
    }
    proof {
        assert(a@ =~= b@);
    }
    true
}

} // verus!
