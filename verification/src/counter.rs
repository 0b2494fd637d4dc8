//! Event counters and their comparison.

use vstd::prelude::*;

verus! {

/// Half of the counter range. Two counters that lie closer together than this
/// compare under [`is_newer_or_eq`] as their numeric order does.
pub const HALF_RANGE: u64 = 0x7fff_ffff_ffff_ffff;

/// How far `a` lies ahead of `b` when counters are read modulo 2^64.
pub open spec fn distance_ahead(a: u64, b: u64) -> int {
    if a >= b {
        a - b
    } else {
        a - b + 0x1_0000_0000_0000_0000
    }
}

/// `a` is at least as new as `b`: it lies less than half the range ahead of it.
pub open spec fn newer_or_eq(a: u64, b: u64) -> bool {
    distance_ahead(a, b) < HALF_RANGE
}

/// Tells whether counter `a` is at least as new as counter `b`, for counters
/// that may have wrapped around.
pub fn is_newer_or_eq(a: u64, b: u64) -> (r: bool)
    ensures
        r == newer_or_eq(a, b),
{
    a.wrapping_sub(b) < u64::MAX / 2
}

/// Counters that lie less than half the range apart compare as numbers do.
pub proof fn lemma_newer_or_eq_is_order(a: u64, b: u64)
    requires
        a - b < HALF_RANGE,
        b - a < HALF_RANGE,
    ensures
        newer_or_eq(a, b) <==> a >= b,
{
}

/// Every counter is at least as new as itself.
pub proof fn lemma_newer_or_eq_reflexive(a: u64)
    ensures
        newer_or_eq(a, a),
{
}

/// Of two distinct counters at most one is at least as new as the other.
pub proof fn lemma_newer_or_eq_antisymmetric(a: u64, b: u64)
    requires
        newer_or_eq(a, b),
        newer_or_eq(b, a),
    ensures
        a == b,
{
}

} // verus!
