//! Small verified helpers on strings.

use vstd::prelude::*;
use vstd::string::*;
use vstd::utf8::*;

verus! {

/// Whether two strings hold the same characters.
pub fn str_eq(a: &str, b: &str) -> (same: bool)
    ensures
        same == (a@ == b@),
{
    let x = a.as_bytes();
    let y = b.as_bytes();
    if x.len() != y.len() {
        return false;
    }
    let mut i: usize = 0;
    while i < x.len()
        invariant
            i <= x@.len(),
            x@.len() == y@.len(),
            x@ == encode_utf8(a@),
            y@ == encode_utf8(b@),
            forall|j: int| 0 <= j < i ==> x@[j] == y@[j],
        decreases x@.len() - i,
    {
        if x[i] != y[i] {
            return false;
        }
        i += 1;
    }
    proof {
        assert(x@ =~= y@);
        encode_utf8_decode_utf8(a@);
        encode_utf8_decode_utf8(b@);
    }
    true
}

/// Whether `text` begins with the characters of `prefix`.
pub open spec fn has_prefix(text: Seq<char>, prefix: Seq<char>) -> bool {
    prefix.len() <= text.len() && text.subrange(0, prefix.len() as int) == prefix
}

/// Whether `text` begins with `prefix`.
pub fn starts_with(text: &str, prefix: &str) -> (found: bool)
    ensures
        found == has_prefix(text@, prefix@),
{
    let n = prefix.unicode_len();
    if text.unicode_len() < n {
        return false;
    }
    let mut i: usize = 0;
    while i < n
        invariant
            i <= n,
            n == prefix@.len(),
            n <= text@.len(),
            forall|j: int| 0 <= j < i ==> text@[j] == prefix@[j],
        decreases n - i,
    {
        if text.get_char(i) != prefix.get_char(i) {
            assert(text@.subrange(0, prefix@.len() as int)[i as int] != prefix@[i as int]);
            return false;
        }
        i += 1;
    }
    assert(text@.subrange(0, prefix@.len() as int) =~= prefix@);
    true
}

} // verus!
