//! Character-level helpers for the line-oriented interface: exact string
//! comparison and trimming of raw input lines.

use vstd::prelude::*;
use vstd::string::StrSliceExecFns;

verus! {

/// Exact, character-by-character string equality.
pub fn str_eq(a: &str, b: &str) -> (r: bool)
    ensures
        r == (a@ == b@),
{
    let alen = a.unicode_len();
    let blen = b.unicode_len();
    if alen != blen {
        return false;
    }
    let mut i: usize = 0;
    while i < alen
        invariant
            i <= alen,
            alen == a@.len(),
            alen == b@.len(),
            forall|j: int| 0 <= j < i ==> a@[j] == b@[j],
        decreases alen - i,
    {
        if a.get_char(i) != b.get_char(i) {
            return false;
        }
        i = i + 1;
    }
    proof {
        assert(a@ =~= b@);
    }
    true
}

/// What is left of a line once leading and trailing whitespace is removed.
pub uninterp spec fn trimmed(s: Seq<char>) -> Seq<char>;

/// Relies on str::trim: removes leading and trailing whitespace; the result
/// depends on the characters of the input alone.
#[verifier::external_body]
fn trim_line(s: &str) -> (r: &str)
    ensures
        r@ == trimmed(s@),
{
    s.trim()
}

/// Turns a raw input line into the text the interface acts on: whitespace at
/// either end is dropped, and a line that is empty after that counts as no
/// input at all.
pub fn normalize_line(line: &str) -> (r: Option<String>)
    ensures
        r matches Some(t) ==> t@ == trimmed(line@) && t@.len() > 0,
        r is None ==> trimmed(line@).len() == 0,
{
    let t = trim_line(line);
    if t.unicode_len() == 0 {
        None
    } else {
        Some(t.to_owned())
    }
}

} // verus!
