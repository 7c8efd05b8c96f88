use vstd::prelude::*;

verus! {

/// A vector of `n` copies of `val`.
pub fn filled<T: Copy>(val: T, n: usize) -> (r: Vec<T>)
    ensures
        r@.len() == n,
        forall|k: int| 0 <= k < n ==> r@[k] == val,
{
    let mut r: Vec<T> = Vec::new();
    let mut i: usize = 0;
    while i < n
        invariant
            i <= n,
            r@.len() == i,
            forall|k: int| 0 <= k < i ==> r@[k] == val,
        decreases n - i,
    {
        r.push(val);
        i = i + 1;
    }
    r
}

} // verus!
