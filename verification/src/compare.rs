//! Three-way comparison.
//!
//! [`three_way`] is the model: the answer as a function of what the two
//! tests `<` and `>` said. [`compare`] computes it for any type that has the
//! two tests, [`cmp`] for `i32`. The lemmas state what follows for integers.

use std::cmp::Ordering;
use vstd::prelude::*;
use vstd::std_specs::cmp::PartialOrdIs;
use vstd::std_specs::cmp::PartialOrdSpec;

verus! {

/// The answer of a three-way comparison, given what the two tests said:
/// `less` is the outcome of `a < b`, `greater` that of `a > b`.
///
/// The tests are consulted in this order, and `Equal` is the default. A pair
/// for which both tests fail is therefore `Equal`, whether the two values are
/// the same or merely unordered.
pub open spec fn three_way(less: bool, greater: bool) -> Ordering {
    if less {
        Ordering::Less
    } else if greater {
        Ordering::Greater
    } else {
        Ordering::Equal
    }
}

/// Compares two values of any type that has `<` and `>`.
///
/// For a type whose operators follow its `partial_cmp_spec`, the answer is
/// `Less` or `Greater` exactly where the values are so ordered, and `Equal`
/// otherwise: also for a pair that the type leaves unordered.
///
/// For every type, the answer is one that the type's own tests allow:
/// `Less` only where `<` can say yes, `Greater` only where `<` can say no and
/// `>` yes, `Equal` only where both can say no.
pub fn compare<T: PartialOrd>(a: T, b: T) -> (r: Ordering)
    ensures
        T::obeys_partial_cmp_spec() ==> r == three_way(a.is_lt(&b), a.is_gt(&b)),
        match r {
            Ordering::Less => call_ensures(T::lt, (&a, &b), true),
            Ordering::Greater => {
                &&& call_ensures(T::lt, (&a, &b), false)
                &&& call_ensures(T::gt, (&a, &b), true)
            },
            Ordering::Equal => {
                &&& call_ensures(T::lt, (&a, &b), false)
                &&& call_ensures(T::gt, (&a, &b), false)
            },
        },
{
    if a < b {
        Ordering::Less
    } else if a > b {
        Ordering::Greater
    } else {
        Ordering::Equal
    }
}

/// Compares two integers.
///
/// The answer is `Less` exactly when `a` is the smaller, `Greater` exactly
/// when it is the larger, and `Equal` exactly when the two are the same.
pub fn cmp(a: i32, b: i32) -> (r: Ordering)
    ensures
        r == three_way(a < b, a > b),
        r == Ordering::Less <==> a < b,
        r == Ordering::Greater <==> a > b,
        r == Ordering::Equal <==> !(a < b) && !(a > b),
        r == Ordering::Equal <==> a == b,
{
    if a < b {
        Ordering::Less
    } else if a > b {
        Ordering::Greater
    } else {
        Ordering::Equal
    }
}

/// On integers each answer stands for one relation: `Less` for `a < b`,
/// `Greater` for `a > b`, `Equal` for `a == b`.
pub proof fn lemma_answer_is_relation(a: int, b: int)
    ensures
        three_way(a < b, a > b) == Ordering::Less <==> a < b,
        three_way(a < b, a > b) == Ordering::Greater <==> a > b,
        three_way(a < b, a > b) == Ordering::Equal <==> !(a < b) && !(a > b),
        three_way(a < b, a > b) == Ordering::Equal <==> a == b,
{
}

/// An integer compares `Equal` to itself.
pub proof fn lemma_reflexive(a: int)
    ensures
        three_way(a < a, a > a) == Ordering::Equal,
{
}

/// Swapping the arguments swaps `Less` and `Greater`: `a` is `Less` than `b`
/// exactly when `b` is `Greater` than `a`, and the other way round. `Equal`
/// stays `Equal`.
pub proof fn lemma_antisymmetric(a: int, b: int)
    ensures
        three_way(a < b, a > b) == Ordering::Less <==> three_way(b < a, b > a)
            == Ordering::Greater,
        three_way(a < b, a > b) == Ordering::Greater <==> three_way(b < a, b > a)
            == Ordering::Less,
        three_way(a < b, a > b) == Ordering::Equal <==> three_way(b < a, b > a)
            == Ordering::Equal,
{
}

/// On `i32` the general comparison and the integer one give the same answer.
pub proof fn lemma_compare_on_i32(a: i32, b: i32)
    ensures
        i32::obeys_partial_cmp_spec(),
        three_way(a.is_lt(&b), a.is_gt(&b)) == three_way(a < b, a > b),
{
}

} // verus!
