use vstd::prelude::*;
use vstd::std_specs::cmp::PartialEqSpec;

verus! {

/// Where two slices first differ.
#[derive(PartialEq, Eq, Structural, Copy, Clone, Debug)]
pub enum SliceMismatch {
    /// The slices have different lengths.
    Length { expected: usize, actual: usize },
    /// The slices have the same length and first differ at `index`.
    Item { index: usize },
}

/// The items of `expected` and `actual` at every index before `upto` are
/// equal by their type's `==` as it is specified.
pub open spec fn items_equal_before<T: PartialEq>(expected: Seq<T>, actual: Seq<T>, upto: int) -> bool {
    forall|j: int| 0 <= j < upto ==> #[trigger] expected[j].eq_spec(&actual[j])
}

/// The type's `==` answered `true` on the items of `expected` and `actual` at
/// every index before `upto`.
pub open spec fn items_compared_equal_before<T: PartialEq>(
    expected: Seq<T>,
    actual: Seq<T>,
    upto: int,
) -> bool {
    forall|j: int| 0 <= j < upto ==> #[trigger] call_ensures(T::eq, (&expected[j], &actual[j]), true)
}

/// Assert that two slices are equal: they have the same length, and the
/// items at each index are equal by their type's `==` as it is specified.
///
/// The assertion is the precondition, so every call is proved to pass: a
/// verified caller cannot pass slices that differ, and nothing is left to
/// check when the program runs. To find out where two slices differ, use
/// [compare_slices].
pub fn assert_slice_eq<T: PartialEq>(expected: &[T], actual: &[T])
    requires
        expected@.len() == actual@.len(),
        items_equal_before(expected@, actual@, expected@.len() as int),
{
}

/// Compare two slices item by item, `expected` against `actual`.
///
/// The result is `Ok` when they are equal. When their lengths differ the
/// result is [SliceMismatch::Length] with both lengths; otherwise it is
/// [SliceMismatch::Item] with the first index at which the items differ.
/// Items are compared with their type's `==`, in order: the result is `Ok`
/// only where every answer was `true`, and the index reported is the first
/// at which the answer was `false`. Where that `==` follows its specification
/// (`obeys_eq_spec`), this is exactly the equality of the items.
pub fn compare_slices<T: PartialEq>(expected: &[T], actual: &[T]) -> (r: Result<(), SliceMismatch>)
    ensures
        r matches Err(SliceMismatch::Length { .. }) ==> expected@.len() != actual@.len(),
        (expected@.len() != actual@.len()) <==> r == Err::<(), SliceMismatch>(
            SliceMismatch::Length {
                expected: expected@.len() as usize,
                actual: actual@.len() as usize,
            },
        ),
        r is Ok ==> items_compared_equal_before(expected@, actual@, expected@.len() as int),
        r matches Err(SliceMismatch::Item { index }) ==> {
            &&& expected@.len() == actual@.len()
            &&& index < expected@.len()
            &&& items_compared_equal_before(expected@, actual@, index as int)
            &&& call_ensures(T::eq, (&expected@[index as int], &actual@[index as int]), false)
            &&& T::obeys_eq_spec() ==> !expected@[index as int].eq_spec(&actual@[index as int])
            &&& T::obeys_eq_spec() ==> items_equal_before(expected@, actual@, index as int)
        },
        T::obeys_eq_spec() ==> (r is Ok <==> expected@.len() == actual@.len() && items_equal_before(
            expected@,
            actual@,
            expected@.len() as int,
        )),
{
    if expected.len() != actual.len() {
        return Err(SliceMismatch::Length { expected: expected.len(), actual: actual.len() });
    }
    let n = expected.len();
    let mut i: usize = 0;
    while i < n
        invariant
            n == expected@.len(),
            n == actual@.len(),
            i <= n,
            T::obeys_eq_spec() ==> items_equal_before(expected@, actual@, i as int),
            items_compared_equal_before(expected@, actual@, i as int),
        decreases n - i,
    {
        let same = expected[i] == actual[i];
        if !same {
            return Err(SliceMismatch::Item { index: i });
        }
        i = i + 1;
    }
    Ok(())
}

} // verus!
