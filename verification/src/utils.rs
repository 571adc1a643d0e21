use vstd::prelude::*;
use vstd::std_specs::cmp::PartialEqSpec;

verus! {

/// Whether two optional values hold equal contents.  Two absent values are
/// equal; an absent and a present value never are.  For element types whose
/// equality obeys its specification, the result is pinned exactly.
pub fn options_eq<T: Eq>(a: &Option<T>, b: &Option<T>) -> (r: bool)
    ensures
        T::obeys_eq_spec() ==> r == (match (a, b) {
            (Some(x), Some(y)) => x.eq_spec(y),
            (None, None) => true,
            _ => false,
        }),
{
    match (a, b) {
        (Some(x), Some(y)) => x == y,
        (None, None) => true,
        _ => false,
    }
}

/// A copy of a byte vector, pinned to hold the same bytes.
pub fn clone_bytes(v: &Vec<u8>) -> (r: Vec<u8>)
    ensures
        r@ == v@,
{
    let r = v.clone();
    proof {
        assert(r@ =~= v@);
    }
    r
}

} // verus!
