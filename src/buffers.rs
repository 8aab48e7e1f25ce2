//! Length rules of the buffer utilities.
use vstd::prelude::*;

verus! {

/// The number of samples that mixing `a` and `b` into `output` covers: the
/// shortest of the three lengths.
pub fn common_len(a_len: usize, b_len: usize, output_len: usize) -> (r: usize)
    ensures
        r <= a_len && r <= b_len && r <= output_len,
        r == a_len || r == b_len || r == output_len,
{
    let ab = if a_len < b_len { a_len } else { b_len };
    if ab < output_len {
        ab
    } else {
        output_len
    }
}

} // verus!
