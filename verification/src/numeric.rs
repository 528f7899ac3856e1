use vstd::prelude::*;

verus! {

/// The numeric capability that a coordinate scalar must offer: copying,
/// arithmetic, comparison, and the constants zero and one.
///
/// Each operation comes in a spec form (`*_spec`), which names the
/// mathematical result, and an executable form whose contract ties it to the
/// spec form.  The `*_ok` predicates delimit the operands on which the
/// executable operation is defined (for a machine integer: where it does not
/// overflow); callers must stay inside them.
///
/// Constructing or converting a geometry never calls into this trait; only
/// the coordinate algebra and the derived quantities (deltas, slopes,
/// bounding boxes, ring closing) do.
pub trait CoordNum: Sized + Copy {
    spec fn zero_spec() -> Self;

    spec fn one_spec() -> Self;

    spec fn neg_ok(self) -> bool;

    spec fn neg_spec(self) -> Self;

    spec fn add_ok(self, other: Self) -> bool;

    spec fn add_spec(self, other: Self) -> Self;

    spec fn sub_ok(self, other: Self) -> bool;

    spec fn sub_spec(self, other: Self) -> Self;

    spec fn mul_ok(self, other: Self) -> bool;

    spec fn mul_spec(self, other: Self) -> Self;

    spec fn div_ok(self, other: Self) -> bool;

    spec fn div_spec(self, other: Self) -> Self;

    spec fn lt_spec(self, other: Self) -> bool;

    fn zero() -> (r: Self)
        ensures
            r == Self::zero_spec(),
    ;

    fn one() -> (r: Self)
        ensures
            r == Self::one_spec(),
    ;

    fn neg(self) -> (r: Self)
        requires
            self.neg_ok(),
        ensures
            r == self.neg_spec(),
    ;

    fn add(self, other: Self) -> (r: Self)
        requires
            self.add_ok(other),
        ensures
            r == self.add_spec(other),
    ;

    fn sub(self, other: Self) -> (r: Self)
        requires
            self.sub_ok(other),
        ensures
            r == self.sub_spec(other),
    ;

    fn mul(self, other: Self) -> (r: Self)
        requires
            self.mul_ok(other),
        ensures
            r == self.mul_spec(other),
    ;

    fn div(self, other: Self) -> (r: Self)
        requires
            self.div_ok(other),
        ensures
            r == self.div_spec(other),
    ;

    fn lt(self, other: Self) -> (r: bool)
        ensures
            r == self.lt_spec(other),
    ;

    fn eq_val(self, other: Self) -> (r: bool)
        ensures
            r == (self == other),
    ;
}

impl CoordNum for i64 {
    open spec fn zero_spec() -> i64 {
        0
    }

    open spec fn one_spec() -> i64 {
        1
    }

    open spec fn neg_ok(self) -> bool {
        self != i64::MIN
    }

    open spec fn neg_spec(self) -> i64 {
        (-self) as i64
    }

    open spec fn add_ok(self, other: i64) -> bool {
        i64::MIN <= self + other <= i64::MAX
    }

    open spec fn add_spec(self, other: i64) -> i64 {
        (self + other) as i64
    }

    open spec fn sub_ok(self, other: i64) -> bool {
        i64::MIN <= self - other <= i64::MAX
    }

    open spec fn sub_spec(self, other: i64) -> i64 {
        (self - other) as i64
    }

    open spec fn mul_ok(self, other: i64) -> bool {
        i64::MIN <= self * other <= i64::MAX
    }

    open spec fn mul_spec(self, other: i64) -> i64 {
        (self * other) as i64
    }

    open spec fn div_ok(self, other: i64) -> bool {
        0 <= self && 0 < other
    }

    open spec fn div_spec(self, other: i64) -> i64 {
        (self / other) as i64
    }

    open spec fn lt_spec(self, other: i64) -> bool {
        self < other
    }

    fn zero() -> i64 {
        0
    }

    fn one() -> i64 {
        1
    }

    fn neg(self) -> i64 {
        -self
    }

    fn add(self, other: i64) -> i64 {
        self + other
    }

    fn sub(self, other: i64) -> i64 {
        self - other
    }

    fn mul(self, other: i64) -> i64 {
        self * other
    }

    fn div(self, other: i64) -> i64 {
        self / other
    }

    fn lt(self, other: i64) -> bool {
        self < other
    }

    fn eq_val(self, other: i64) -> bool {
        self == other
    }
}

} // verus!
