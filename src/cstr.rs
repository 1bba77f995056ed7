//! The contents of C strings: byte sequences that hold no zero byte, the zero
//! byte being the terminator that follows them in memory.
use vstd::prelude::*;

verus! {

/// Whether `s` can stand as the contents of a C string: no byte of it is zero.
pub open spec fn is_c_contents(s: Seq<u8>) -> bool {
    forall|i: int| 0 <= i < s.len() ==> #[trigger] s[i] != 0
}

/// The contents of `a` followed by those of `b`. Two C strings' contents give
/// the contents of a C string.
pub fn concat_bytes(a: &[u8], b: &[u8]) -> (r: Vec<u8>)
    requires
        a@.len() + b@.len() <= usize::MAX,
    ensures
        r@ == a@ + b@,
        is_c_contents(a@) && is_c_contents(b@) ==> is_c_contents(r@),
{
    let mut r: Vec<u8> = Vec::with_capacity(a.len() + b.len());
    let mut i: usize = 0;
    while i < a.len()
        invariant
            0 <= i <= a@.len(),
            r@ == a@.subrange(0, i as int),
        decreases a@.len() - i,
    {
        r.push(a[i]);
        i += 1;
    }
    assert(r@ == a@);
    let mut j: usize = 0;
    while j < b.len()
        invariant
            0 <= j <= b@.len(),
            r@ == a@ + b@.subrange(0, j as int),
        decreases b@.len() - j,
    {
        r.push(b[j]);
        j += 1;
    }
    assert(b@.subrange(0, b@.len() as int) == b@);
    proof {
        if is_c_contents(a@) && is_c_contents(b@) {
            assert forall|k: int| 0 <= k < r@.len() implies #[trigger] r@[k] != 0 by {
                if k < a@.len() {
                    assert(r@[k] == a@[k]);
                } else {
                    assert(r@[k] == b@[k - a@.len()]);
                }
            }
        }
    }
    r
}

} // verus!
