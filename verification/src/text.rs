use vstd::prelude::*;
use vstd::string::StrSliceExecFns;

verus! {

/// Whether a character counts as whitespace. Named, not defined: the Unicode
/// whitespace property is decided by `char::is_whitespace`, and the library
/// only relies on it being a function of the character alone.
pub uninterp spec fn is_space(c: char) -> bool;

/// A text is blank when every one of its characters is whitespace; in
/// particular the empty text is blank. A message is accepted exactly when
/// its content is not blank.
pub open spec fn is_blank(s: Seq<char>) -> bool {
    forall|i: int| 0 <= i < s.len() ==> is_space(s[i])
}

/// Relies on char::is_whitespace: whether `c` has the Unicode whitespace
/// property, a function of the character alone.
#[verifier::external_body]
fn char_is_space(c: char) -> (r: bool)
    ensures
        r == is_space(c),
{
    c.is_whitespace()
}

/// True exactly when every character of `s` is whitespace — equivalently,
/// when trimming whitespace from `s` would leave it empty.
pub fn is_blank_text(s: &str) -> (r: bool)
    ensures
        r == is_blank(s@),
{
    let n = s.unicode_len();
    let mut i: usize = 0;
    while i < n
        invariant
            n == s@.len(),
            i <= n,
            forall|j: int| 0 <= j < i ==> is_space(s@[j]),
        decreases n - i,
    {
        if !char_is_space(s.get_char(i)) {
            assert(!is_space(s@[i as int]));
            return false;
        }
        i += 1;
    }
    true
}

} // verus!
