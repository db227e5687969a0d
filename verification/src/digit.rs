//! Names the digit that a glyph shows: the reference glyph that is nearest to
//! it, and of several at the same distance the one of the smallest digit.

use crate::templates::{
    lemma_reference_shape, lemma_references_differ, reference, reference_vector, DigitVector,
};
use vstd::prelude::*;

verus! {

/// The squared difference of two entries.
pub open spec fn squared_difference(x: u8, y: u8) -> int {
    (x - y) * (x - y)
}

/// The sum of the squared differences of the first `n` entries of `a` and `b`.
pub open spec fn squared_distance_upto(a: Seq<u8>, b: Seq<u8>, n: nat) -> int
    decreases n,
{
    if n == 0 {
        0
    } else {
        squared_distance_upto(a, b, (n - 1) as nat) + squared_difference(a[n - 1], b[n - 1])
    }
}

/// The square of the Euclidean distance between `a` and `b`: the sum, over
/// all entries, of the squared difference of the two.
pub open spec fn squared_distance(a: Seq<u8>, b: Seq<u8>) -> int {
    squared_distance_upto(a, b, a.len())
}

/// The digit among the first `n` whose reference vector is nearest to `v`,
/// the smallest such digit where several are equally near.
pub open spec fn nearest_digit_upto(v: Seq<u8>, n: nat) -> int
    decreases n,
{
    if n <= 1 {
        0
    } else {
        let best = nearest_digit_upto(v, (n - 1) as nat);
        if squared_distance(v, reference(n - 1)) < squared_distance(v, reference(best)) {
            n - 1
        } else {
            best
        }
    }
}

/// The digit whose reference vector is nearest to `v`.
pub open spec fn nearest_digit(v: Seq<u8>) -> int {
    nearest_digit_upto(v, 10)
}

/// Whether `d` is the first of the nearest digits of `v`: no reference vector
/// is nearer to `v` than that of `d`, and those of all smaller digits are
/// farther.
pub open spec fn is_first_nearest(v: Seq<u8>, d: int) -> bool {
    &&& 0 <= d < 10
    &&& forall|j: int|
        0 <= j < 10 ==> squared_distance(v, reference(d)) <= #[trigger] squared_distance(
            v,
            reference(j),
        )
    &&& forall|j: int|
        0 <= j < d ==> squared_distance(v, reference(d)) < #[trigger] squared_distance(
            v,
            reference(j),
        )
}

/// A squared difference is zero for equal entries, above zero for others,
/// at most 255 * 255, and the same in both directions.
pub proof fn lemma_squared_difference(x: u8, y: u8)
    ensures
        0 <= squared_difference(x, y) <= 65025,
        squared_difference(x, y) == 0 <==> x == y,
        squared_difference(x, y) == squared_difference(y, x),
{
    let d = x - y;
    let e = y - x;
    assert(0 <= d * d <= 65025 && (d * d == 0 <==> d == 0) && d * d == e * e)
        by (nonlinear_arith)
        requires
            -255 <= d <= 255,
            e == -d,
    ;
}

/// The squared distance is a sum of squares, each at most 255 * 255.
pub proof fn lemma_distance_bounds(a: Seq<u8>, b: Seq<u8>, n: nat)
    ensures
        0 <= squared_distance_upto(a, b, n) <= 65025 * n,
    decreases n,
{
    if n > 0 {
        lemma_distance_bounds(a, b, (n - 1) as nat);
        lemma_squared_difference(a[n - 1], b[n - 1]);
    }
}

/// Two vectors that differ in an entry are at a distance above zero.
pub proof fn lemma_distance_positive(a: Seq<u8>, b: Seq<u8>, n: nat, k: int)
    requires
        0 <= k < n,
        a[k] != b[k],
    ensures
        squared_distance_upto(a, b, n) > 0,
    decreases n,
{
    lemma_distance_bounds(a, b, (n - 1) as nat);
    lemma_squared_difference(a[n - 1], b[n - 1]);
    if k < n - 1 {
        lemma_distance_positive(a, b, (n - 1) as nat, k);
    }
}

proof fn lemma_distance_upto_to_self(v: Seq<u8>, n: nat)
    ensures
        squared_distance_upto(v, v, n) == 0,
    decreases n,
{
    if n > 0 {
        lemma_distance_upto_to_self(v, (n - 1) as nat);
        lemma_squared_difference(v[n - 1], v[n - 1]);
    }
}

proof fn lemma_distance_upto_symmetric(a: Seq<u8>, b: Seq<u8>, n: nat)
    ensures
        squared_distance_upto(a, b, n) == squared_distance_upto(b, a, n),
    decreases n,
{
    if n > 0 {
        lemma_distance_upto_symmetric(a, b, (n - 1) as nat);
        lemma_squared_difference(a[n - 1], b[n - 1]);
    }
}

/// Every vector is at distance zero from itself.
pub proof fn lemma_distance_to_self(v: DigitVector)
    ensures
        squared_distance(v@, v@) == 0,
{
    lemma_distance_upto_to_self(v@, v@.len());
}

/// The distance from `a` to `b` is the distance from `b` to `a`.
pub proof fn lemma_distance_symmetric(a: DigitVector, b: DigitVector)
    ensures
        squared_distance(a@, b@) == squared_distance(b@, a@),
{
    lemma_distance_upto_symmetric(a@, b@, 256);
}

/// The nearest digit among the first `n` is the first of the nearest among them.
proof fn lemma_nearest_digit_upto(v: Seq<u8>, n: nat)
    requires
        1 <= n,
    ensures
        0 <= nearest_digit_upto(v, n) < n,
        forall|j: int|
            0 <= j < n ==> squared_distance(v, reference(nearest_digit_upto(v, n)))
                <= #[trigger] squared_distance(v, reference(j)),
        forall|j: int|
            0 <= j < nearest_digit_upto(v, n) ==> squared_distance(
                v,
                reference(nearest_digit_upto(v, n)),
            ) < #[trigger] squared_distance(v, reference(j)),
    decreases n,
{
    if n > 1 {
        lemma_nearest_digit_upto(v, (n - 1) as nat);
    }
}

/// The nearest digit of `v` is the first of its nearest digits, and no other
/// digit is.
pub proof fn lemma_nearest_digit(v: Seq<u8>)
    ensures
        is_first_nearest(v, nearest_digit(v)),
        forall|d: int| is_first_nearest(v, d) ==> d == nearest_digit(v),
{
    lemma_nearest_digit_upto(v, 10);
    assert forall|d: int| is_first_nearest(v, d) implies d == nearest_digit(v) by {
        let best = nearest_digit(v);
        if d < best {
            assert(squared_distance(v, reference(best)) < squared_distance(v, reference(d)));
            assert(squared_distance(v, reference(d)) <= squared_distance(v, reference(best)));
        } else if best < d {
            assert(squared_distance(v, reference(d)) < squared_distance(v, reference(best)));
            assert(squared_distance(v, reference(best)) <= squared_distance(v, reference(d)));
        }
    }
}

/// Each reference vector is named as its own digit.
pub proof fn lemma_reference_is_own_digit(d: int)
    requires
        0 <= d < 10,
    ensures
        nearest_digit(reference(d)) == d,
{
    let v = reference(d);
    lemma_reference_shape(d);
    lemma_distance_upto_to_self(v, 256);
    assert forall|j: int| 0 <= j < 10 implies squared_distance(v, reference(d))
        <= #[trigger] squared_distance(v, reference(j)) by {
        lemma_distance_bounds(v, reference(j), 256);
    }
    assert forall|j: int| 0 <= j < d implies squared_distance(v, reference(d))
        < #[trigger] squared_distance(v, reference(j)) by {
        lemma_references_differ(d, j);
        let k = choose|k: int| 0 <= k < 256 && reference(d)[k] != reference(j)[k];
        lemma_distance_positive(v, reference(j), 256, k);
    }
    lemma_nearest_digit(v);
}

/// The squared difference of two entries, taken as signed numbers so that
/// the smaller may come first.
fn entry_distance(x: u8, y: u8) -> (d: u32)
    ensures
        d == squared_difference(x, y),
        d <= 65025,
{
    let diff: i32 = x as i32 - y as i32;
    assert(0 <= diff * diff <= 65025) by (nonlinear_arith)
        requires
            -255 <= diff <= 255,
    ;
    (diff * diff) as u32
}

/// The square of the Euclidean distance between two vectors.
pub fn vector_distance(vec1: &DigitVector, vec2: &DigitVector) -> (d: u32)
    ensures
        d == squared_distance(vec1@, vec2@),
        d <= 65025 * 256,
{
    let mut sum: u32 = 0;
    let mut i: usize = 0;
    while i < 256
        invariant
            i <= 256,
            sum == squared_distance_upto(vec1@, vec2@, i as nat),
            sum <= 65025 * i,
        decreases 256 - i,
    {
        sum += entry_distance(vec1[i], vec2[i]);
        i += 1;
    }
    sum
}

/// The squared distance from `current_digit` to each of the ten reference
/// vectors, at the index of its digit.
pub fn get_digit_similarity(current_digit: &DigitVector) -> (distances: [u32; 10])
    ensures
        forall|d: int|
            0 <= d < 10 ==> #[trigger] distances[d] == squared_distance(
                current_digit@,
                reference(d),
            ),
{
    [
        vector_distance(current_digit, reference_vector(0)),
        vector_distance(current_digit, reference_vector(1)),
        vector_distance(current_digit, reference_vector(2)),
        vector_distance(current_digit, reference_vector(3)),
        vector_distance(current_digit, reference_vector(4)),
        vector_distance(current_digit, reference_vector(5)),
        vector_distance(current_digit, reference_vector(6)),
        vector_distance(current_digit, reference_vector(7)),
        vector_distance(current_digit, reference_vector(8)),
        vector_distance(current_digit, reference_vector(9)),
    ]
}

/// The digit that `digit` shows: the one whose reference vector is nearest,
/// the smallest where several are equally near.
pub fn get_digit(digit: &DigitVector) -> (d: u8)
    ensures
        d == nearest_digit(digit@),
        is_first_nearest(digit@, d as int),
        d <= 9,
{
    let breakdown = get_digit_similarity(digit);
    let mut lowest_value: u32 = breakdown[0];
    let mut lowest_index: u8 = 0;
    let mut i: u8 = 1;
    while i < 10
        invariant
            1 <= i <= 10,
            lowest_index < i,
            lowest_index == nearest_digit_upto(digit@, i as nat),
            lowest_value == squared_distance(digit@, reference(lowest_index as int)),
            forall|d: int|
                0 <= d < 10 ==> #[trigger] breakdown[d] == squared_distance(
                    digit@,
                    reference(d),
                ),
        decreases 10 - i,
    {
        let b: u32 = breakdown[i as usize];
        if b < lowest_value {
            lowest_value = b;
            lowest_index = i;
        }
        i += 1;
    }
    proof {
        lemma_nearest_digit(digit@);
    }
    lowest_index
}

} // verus!
