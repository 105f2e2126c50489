//! Facts about bit patterns of 64 bits, proved by bit blasting.

use crate::settings::ASSIGNED_BITS;
use vstd::prelude::*;

verus! {

/// A bit is on in `x | m` when it is on in `x` or in `m`.
pub(crate) proof fn lemma_or_test(x: u64, m: u64, q: u64)
    by (bit_vector)
    ensures
        ((x | m) & q != 0) == ((x & q != 0) || (m & q != 0)),
{
}

/// A single bit is on in `x & !m` when it is on in `x` and off in `m`.
pub(crate) proof fn lemma_clear_test(x: u64, m: u64, j: u64)
    by (bit_vector)
    requires
        j < 64,
    ensures
        ((x & !m) & (1u64 << j) != 0) == ((x & (1u64 << j) != 0) && (m & (1u64 << j) == 0)),
{
}

/// Two single bits overlap only when they are the same bit.
pub(crate) proof fn lemma_own_bits(i: u64, j: u64)
    by (bit_vector)
    requires
        i < 64,
        j < 64,
    ensures
        ((1u64 << i) & (1u64 << j) != 0) == (i == j),
{
}

/// `x` holds all of `a | b` when it holds all of `a` and all of `b`.
pub(crate) proof fn lemma_all_of(x: u64, a: u64, b: u64)
    by (bit_vector)
    ensures
        (x & (a | b) == (a | b)) == ((x & a == a) && (x & b == b)),
{
}

/// `x` holds all of a single bit when that bit is on in `x`.
pub(crate) proof fn lemma_one_of(x: u64, j: u64)
    by (bit_vector)
    requires
        j < 64,
    ensures
        (x & (1u64 << j) == (1u64 << j)) == (x & (1u64 << j) != 0),
{
}

/// The assigned positions lie within `ASSIGNED_BITS`, and union and
/// clearing stay within it.
pub(crate) proof fn lemma_assigned(i: u64, x: u64, m: u64)
    by (bit_vector)
    ensures
        i < 38 && i != 4 ==> (1u64 << i) & !ASSIGNED_BITS == 0,
        x & !ASSIGNED_BITS == 0 && m & !ASSIGNED_BITS == 0 ==> (x | m) & !ASSIGNED_BITS == 0,
        x & !ASSIGNED_BITS == 0 ==> (x & !m) & !ASSIGNED_BITS == 0,
        0u64 & !ASSIGNED_BITS == 0,
{
}

/// The algebra of bitwise or, and of and with zero.
pub(crate) proof fn lemma_or_laws(x: u64, y: u64, z: u64)
    by (bit_vector)
    ensures
        x | y == y | x,
        (x | y) | z == x | (y | z),
        x | 0 == x,
        0 | x == x,
        x | x == x,
        0u64 & x == 0,
{
}

} // verus!
