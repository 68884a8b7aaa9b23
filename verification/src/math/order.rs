use vstd::prelude::*;
use vstd::std_specs::cmp::{PartialEqSpec, PartialOrdSpec};

verus! {

/// The smaller of `a` and `b` by the type's comparison: `b` when it compares
/// less than `a`; otherwise `a`, unless `a` is not equal to itself (a NaN),
/// in which case `b`.
pub open spec fn least<T: PartialOrd>(a: T, b: T) -> T {
    if b.partial_cmp_spec(&a) == Some(core::cmp::Ordering::Less) {
        b
    } else if a.eq_spec(&a) {
        a
    } else {
        b
    }
}

/// The larger of `a` and `b` by the type's comparison: `b` when `a` compares
/// less than it; otherwise `a`, unless `a` is not equal to itself (a NaN),
/// in which case `b`.
pub open spec fn greatest<T: PartialOrd>(a: T, b: T) -> T {
    if a.partial_cmp_spec(&b) == Some(core::cmp::Ordering::Less) {
        b
    } else if a.eq_spec(&a) {
        a
    } else {
        b
    }
}

/// `r` is what [least_of] gives on `a` and `b` by the answers of the type's
/// own `<` and `==`: `b` when `b < a`; otherwise `a` when `a == a`, and `b`
/// when not.
pub open spec fn least_by_calls<T: PartialOrd>(a: T, b: T, r: T) -> bool {
    exists|lt: bool| #[trigger]
        call_ensures(T::lt, (&b, &a), lt) && if lt {
            r == b
        } else {
            exists|e: bool| #[trigger] call_ensures(T::eq, (&a, &a), e) && r == (if e {
                a
            } else {
                b
            })
        }
}

/// `r` is what [greatest_of] gives on `a` and `b` by the answers of the
/// type's own `<` and `==`: `b` when `a < b`; otherwise `a` when `a == a`,
/// and `b` when not.
pub open spec fn greatest_by_calls<T: PartialOrd>(a: T, b: T, r: T) -> bool {
    exists|lt: bool| #[trigger]
        call_ensures(T::lt, (&a, &b), lt) && if lt {
            r == b
        } else {
            exists|e: bool| #[trigger] call_ensures(T::eq, (&a, &a), e) && r == (if e {
                a
            } else {
                b
            })
        }
}

/// The smaller of two values; where one of them is not equal to itself (a
/// NaN), the other one.
pub fn least_of<T: PartialOrd>(a: T, b: T) -> (r: T)
    ensures
        r == a || r == b,
        least_by_calls(a, b, r),
        T::obeys_partial_cmp_spec() && T::obeys_eq_spec() ==> r == least(a, b),
{
    if b < a {
        b
    } else if a == a {
        a
    } else {
        b
    }
}

/// The larger of two values; where one of them is not equal to itself (a
/// NaN), the other one.
pub fn greatest_of<T: PartialOrd>(a: T, b: T) -> (r: T)
    ensures
        r == a || r == b,
        greatest_by_calls(a, b, r),
        T::obeys_partial_cmp_spec() && T::obeys_eq_spec() ==> r == greatest(a, b),
{
    if a < b {
        b
    } else if a == a {
        a
    } else {
        b
    }
}

} // verus!
