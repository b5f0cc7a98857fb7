//! The demonstration computation and its buffer sizing: elementwise
//! addition over two equal-length 32-bit integer arrays.

use vstd::prelude::*;

verus! {

/// Byte size of a buffer holding `len` 32-bit integers.
pub fn buffer_byte_size(len: usize) -> (r: usize)
    requires
        4 * len <= usize::MAX,
    ensures
        r == 4 * len,
{
    len * 4
}

/// The result buffer's byte size: the larger of the two input sizes.
pub fn result_byte_size(a: usize, b: usize) -> (r: usize)
    ensures
        r == if a >= b {
            a
        } else {
            b
        },
{
    if a >= b {
        a
    } else {
        b
    }
}

/// The elementwise sum the demonstration kernel computes: each output
/// element is the sum of the input elements at the same position.
pub fn elementwise_add(a: &Vec<i32>, b: &Vec<i32>) -> (r: Vec<i32>)
    requires
        a@.len() == b@.len(),
        forall|i: int| 0 <= i < a@.len() ==> i32::MIN <= #[trigger] (a@[i] + b@[i]) <= i32::MAX,
    ensures
        r@.len() == a@.len(),
        forall|i: int| 0 <= i < r@.len() ==> #[trigger] r@[i] == a@[i] + b@[i],
{
    let mut r: Vec<i32> = Vec::new();
    let mut i: usize = 0;
    while i < a.len()
        invariant
            0 <= i <= a@.len(),
            a@.len() == b@.len(),
            r@.len() == i,
            forall|j: int| 0 <= j < a@.len() ==> i32::MIN <= #[trigger] (a@[j] + b@[j]) <= i32::MAX,
            forall|j: int| 0 <= j < i ==> #[trigger] r@[j] == a@[j] + b@[j],
        decreases a@.len() - i,
    {
        r.push(a[i] + b[i]);
        i = i + 1;
    }
    r
}

} // verus!
