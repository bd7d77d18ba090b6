use vstd::prelude::*;

verus! {

/// Mutable access to two distinct slots of one store at once.
///
/// The first reference is to slot `i`, the second to slot `j`. Whatever the
/// caller writes through them is what the store holds afterwards; every
/// other slot is left as it was.
pub fn pair_mut<T>(items: &mut Vec<T>, i: usize, j: usize) -> (r: (&mut T, &mut T))
    requires
        i != j,
        i < old(items).len(),
        j < old(items).len(),
    ensures
        *r.0 == old(items)@[i as int],
        *r.1 == old(items)@[j as int],
        final(items)@ == old(items)@.update(i as int, *final(r.0)).update(j as int, *final(r.1)),
{
    let s = items.as_mut_slice();
    if i < j {
        let (left, right) = s.split_at_mut(j);
        let (_, from_i) = left.split_at_mut(i);
        let a = from_i.first_mut().unwrap();
        let b = right.first_mut().unwrap();
        (a, b)
    } else {
        let (left, right) = s.split_at_mut(i);
        let (_, from_j) = left.split_at_mut(j);
        let b = from_j.first_mut().unwrap();
        let a = right.first_mut().unwrap();
        (a, b)
    }
}

} // verus!
