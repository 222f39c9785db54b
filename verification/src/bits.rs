//! Bit-level model of the DCF77 timeframe register: single bits, even
//! parity over inclusive bit ranges, sub-word extraction, and two-digit
//! binary-coded-decimal interpretation of a nibble pair.

use vstd::prelude::*;

verus! {

/// Bit `i` of `v`, false outside the 64-bit range.
pub open spec fn bit64(v: u64, i: int) -> bool {
    0 <= i < 64 && (v >> (i as u64)) & 1u64 == 1u64
}

/// Even parity (XOR) over the inclusive bit range `start..=end` of `v`;
/// false on an empty range.
pub open spec fn parity64(v: u64, start: int, end: int) -> bool
    decreases end - start + 1,
{
    if start > end {
        false
    } else {
        parity64(v, start, end - 1) != bit64(v, end)
    }
}

/// The sub-word of `v` in the inclusive bit range `start..=end`, shifted
/// down to bit 0.
pub open spec fn field64(v: u64, start: int, end: int) -> u64
    recommends
        0 <= start <= end < 64,
{
    (v >> (start as u64)) & (u64::MAX >> ((63 - (end - start)) as u64))
}

/// A nibble pair read as two decimal digits: the high nibble counts tens,
/// the low nibble counts units. Nibbles above 9 are not corrected here;
/// they yield values that only a downstream range check can reject.
pub open spec fn bcd2(f: u64) -> int {
    10 * ((f >> 4) & 0xF) + (f & 0xF)
}

/// Parity over a range reads nothing outside that range: two registers
/// that agree on every bit of the range have the same parity, so the
/// check is deterministic in the protected bits alone, and re-encoding
/// a decoded field leaves its parity unchanged.
pub proof fn lemma_parity_only_range(v1: u64, v2: u64, start: int, end: int)
    requires
        forall|i: int| start <= i <= end ==> bit64(v1, i) == bit64(v2, i),
    ensures
        parity64(v1, start, end) == parity64(v2, start, end),
    decreases end - start + 1,
{
    if start <= end {
        lemma_parity_only_range(v1, v2, start, end - 1);
    }
}

/// Flipping exactly one bit inside the protected range flips the parity,
/// so any single-bit corruption of the range is caught by the parity check.
pub proof fn lemma_parity_flip(v1: u64, v2: u64, k: int, start: int, end: int)
    requires
        start <= k <= end,
        bit64(v1, k) != bit64(v2, k),
        forall|i: int| start <= i <= end && i != k ==> bit64(v1, i) == bit64(v2, i),
    ensures
        parity64(v1, start, end) != parity64(v2, start, end),
    decreases end - start + 1,
{
    if k == end {
        lemma_parity_only_range(v1, v2, start, end - 1);
    } else {
        lemma_parity_flip(v1, v2, k, start, end - 1);
    }
}

/// Two decimal digits packed as a nibble pair decode back to the number
/// they spell: the tens digit times ten plus the units digit.
pub proof fn lemma_bcd_round_trip(tens: u64, units: u64)
    requires
        tens <= 9,
        units <= 9,
    ensures
        bcd2((16 * tens + units) as u64) == 10 * tens + units,
{
    let f = (16 * tens + units) as u64;
    assert((f >> 4) & 0xF == tens && f & 0xF == units) by (bit_vector)
        requires
            tens <= 9,
            units <= 9,
            f == (16 * tens + units) as u64,
    ;
}

/// A tens nibble above 9 is not silently repaired: it decodes to a value
/// above 99, which only a downstream range check rejects.
pub proof fn lemma_bcd_garbage_above_99(f: u64)
    requires
        (f >> 4) & 0xF > 9,
    ensures
        bcd2(f) > 99,
{
}

/// Setting bit `n` of `d` makes that bit 1 and leaves every other bit as
/// it was.
pub proof fn lemma_set_bit(d: u64, n: u64)
    by (bit_vector)
    requires
        n < 64,
    ensures
        ((d | (1u64 << n)) >> n) & 1u64 == 1u64,
        forall|i: u64|
            i < 64 && i != n ==> ((d | (1u64 << n)) >> i) & 1u64 == (d >> i) & 1u64,
{
}

/// Clearing bit `n` of `d` makes that bit 0 and leaves every other bit as
/// it was.
pub proof fn lemma_clear_bit(d: u64, n: u64)
    by (bit_vector)
    requires
        n < 64,
    ensures
        ((d & !(1u64 << n)) >> n) & 1u64 == 0u64,
        forall|i: u64|
            i < 64 && i != n ==> ((d & !(1u64 << n)) >> i) & 1u64 == (d >> i) & 1u64,
{
}

} // verus!
