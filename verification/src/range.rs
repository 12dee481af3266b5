//! One bound of a Postgres range value.
use crate::datum::Datum;
use vstd::prelude::*;
use vstd::std_specs::cmp::PartialEqSpec;

verus! {

/// One end of a range: its value, and whether it is infinite, inclusive and the
/// lower end.  Hashing feeds the word of `val` and then the three flags, one byte
/// each, in that order.
#[derive(Debug, Copy, Clone, Hash)]
pub struct RangeBound {
    pub val: Datum,
    pub infinite: bool,
    pub inclusive: bool,
    pub lower: bool,
}

/// Two bounds are equal when all four fields are.
impl PartialEq for RangeBound {
    fn eq(&self, other: &Self) -> (r: bool) {
        self.val == other.val && self.infinite == other.infinite && self.inclusive
            == other.inclusive && self.lower == other.lower
    }
}

impl vstd::std_specs::cmp::PartialEqSpecImpl for RangeBound {
    open spec fn obeys_eq_spec() -> bool {
        true
    }

    open spec fn eq_spec(&self, other: &Self) -> bool {
        self.val == other.val && self.infinite == other.infinite && self.inclusive
            == other.inclusive && self.lower == other.lower
    }
}

impl Eq for RangeBound {

}

/// Equality of range bounds is an equivalence relation.
pub proof fn lemma_range_bound_eq_equivalence(a: RangeBound, b: RangeBound, c: RangeBound)
    ensures
        a.eq_spec(&a),
        a.eq_spec(&b) ==> b.eq_spec(&a),
        a.eq_spec(&b) && b.eq_spec(&c) ==> a.eq_spec(&c),
        a.eq_spec(&b) <==> a == b,
{
}

} // verus!
