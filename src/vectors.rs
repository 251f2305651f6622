//! Building and changing vectors.
use vstd::prelude::*;

verus! {

/// A vector of one, two and three.
pub fn create_vector() -> (r: Vec<i32>)
    ensures
        r@ == seq![1i32, 2i32, 3i32],
{
    let v: Vec<i32> = vec![1, 2, 3];
    v
}

/// An empty vector filled by pushing five, six, seven and eight.
pub fn updating_vector() -> (r: Vec<i32>)
    ensures
        r@ == seq![5i32, 6i32, 7i32, 8i32],
{
    let mut v: Vec<i32> = Vec::new();
    v.push(5);
    v.push(6);
    v.push(7);
    v.push(8);
    assert(v@ =~= seq![5i32, 6i32, 7i32, 8i32]);
    v
}

/// Adds `n` to every element of `v` in place.
pub fn add_to_each(v: &mut Vec<i32>, n: i32)
    requires
        forall|i: int| 0 <= i < old(v)@.len() ==> i32::MIN <= #[trigger] old(v)@[i] + n <= i32::MAX,
    ensures
        final(v)@.len() == old(v)@.len(),
        forall|i: int| 0 <= i < old(v)@.len() ==> #[trigger] final(v)@[i] == old(v)@[i] + n,
{
    let ghost start = v@;
    let mut k: usize = 0;
    while k < v.len()
        invariant
            k <= v@.len(),
            v@.len() == start.len(),
            forall|i: int| 0 <= i < start.len() ==> i32::MIN <= #[trigger] start[i] + n <= i32::MAX,
            forall|i: int| 0 <= i < k ==> #[trigger] v@[i] == start[i] + n,
            forall|i: int| k <= i < v@.len() ==> #[trigger] v@[i] == start[i],
        decreases v@.len() - k,
    {
        let x = v[k] + n;
        v.set(k, x);
        k = k + 1;
    }
}

/// A hundred, thirty-two and fifty-seven, each raised by fifty.
pub fn changing_values_in_vector() -> (r: Vec<i32>)
    ensures
        r@ == seq![150i32, 82i32, 107i32],
{
    let mut v: Vec<i32> = vec![100, 32, 57];
    add_to_each(&mut v, 50);
    assert(v@ =~= seq![150i32, 82i32, 107i32]);
    v
}

} // verus!
