//! Small string helpers.

use vstd::prelude::*;
use vstd::string::StringSliceAdditionalSpecFns;
use vstd::utf8::decode_utf8;

verus! {

/// Whether two strings hold the same characters.
pub fn str_eq(s: &str, t: &str) -> (r: bool)
    ensures
        r == (s@ == t@),
{
    let b = s.as_bytes();
    let m = t.as_bytes();
    proof {
        vstd::utf8::encode_utf8_decode_utf8(s@);
        vstd::utf8::encode_utf8_decode_utf8(t@);
    }
    if b.len() != m.len() {
        return false;
    }
    let mut i: usize = 0;
    while i < b.len()
        invariant
            b@.len() == m@.len(),
            b@ == s.spec_bytes(),
            m@ == t.spec_bytes(),
            decode_utf8(b@) == s@,
            decode_utf8(m@) == t@,
            i <= b@.len(),
            forall|j: int| 0 <= j < i ==> b@[j] == m@[j],
        decreases b@.len() - i,
    {
        if b[i] != m[i] {
            return false;
        }
        i = i + 1;
    }
    assert(b@ =~= m@);
    true
}

} // verus!
