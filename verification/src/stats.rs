use vstd::prelude::*;

verus! {

/// The maximum element of the slice, or `None` when the slice is empty.
pub fn find_max(numbers: &[i32]) -> (r: Option<i32>)
    ensures
        match r {
            Some(m) => {
                &&& numbers@.len() > 0
                &&& numbers@.contains(m)
                &&& forall|i: int| 0 <= i < numbers@.len() ==> numbers@[i] <= m
            },
            None => numbers@.len() == 0,
        },
{
    if numbers.len() == 0 {
        return None;
    }
    let mut best: i32 = numbers[0];
    let mut i: usize = 1;
    while i < numbers.len()
        invariant
            1 <= i <= numbers@.len(),
            numbers@.contains(best),
            forall|j: int| 0 <= j < i ==> numbers@[j] <= best,
        decreases numbers@.len() - i,
    {
        if numbers[i] > best {
            best = numbers[i];
        }
        i += 1;
    }
    Some(best)
}

} // verus!
