//! Deriving small uniform values from delivered entropy.
//!
//! The randomness collaborator answers a request with 32 bytes of verifiable
//! entropy. The outside crate maps those bytes to a value in a caller-chosen
//! range by rejection sampling: it scans the bytes from the last to the
//! first for one below the largest multiple of the range width that fits in
//! a byte, and falls back, slightly biased, to the last byte when every byte
//! is rejected. [`vrf_value_in_range`] states that computation exactly, so
//! the turn-order and dice contracts are functions of the delivered bytes.

use vstd::prelude::*;

verus! {

/// The rejection threshold for a range of `max - min + 1` values: bytes at
/// or above it would make the low values of the range more likely.
pub open spec fn vrf_threshold(min: int, max: int) -> int {
    256int / (max - min + 1) * (max - min + 1)
}

/// The scan of `bytes` from index `k` down to 0: the first byte below the
/// threshold picks the value; if every byte is rejected, the last byte does.
pub open spec fn vrf_scan(bytes: Seq<u8>, k: int, min: int, max: int) -> int
    decreases k + 1,
{
    if k < 0 {
        min + (bytes[31] as int) % (max - min + 1)
    } else if (bytes[k] as int) < vrf_threshold(min, max) {
        min + (bytes[k] as int) % (max - min + 1)
    } else {
        vrf_scan(bytes, k - 1, min, max)
    }
}

/// The value in `min..=max` that 32 delivered entropy bytes map to.
pub open spec fn vrf_value_in_range(bytes: Seq<u8>, min: int, max: int) -> int {
    vrf_scan(bytes, 31, min, max)
}

/// The mapped value lies in the requested range.
pub proof fn lemma_vrf_value_in_range(bytes: Seq<u8>, min: int, max: int)
    requires
        min <= max,
    ensures
        min <= vrf_value_in_range(bytes, min, max) <= max,
{
    lemma_vrf_scan_in_range(bytes, 31, min, max);
}

proof fn lemma_vrf_scan_in_range(bytes: Seq<u8>, k: int, min: int, max: int)
    requires
        min <= max,
    ensures
        min <= vrf_scan(bytes, k, min, max) <= max,
    decreases k + 1,
{
    let width = max - min + 1;
    if k < 0 {
        assert(0 <= (bytes[31] as int) % width < width) by (nonlinear_arith)
            requires width > 0;
    } else if (bytes[k] as int) < vrf_threshold(min, max) {
        assert(0 <= (bytes[k] as int) % width < width) by (nonlinear_arith)
            requires width > 0;
    } else {
        lemma_vrf_scan_in_range(bytes, k - 1, min, max);
    }
}

/// Relies on `ephemeral_vrf_sdk::rnd::random_u8_with_range`: rejection
/// sampling over the 32 bytes, scanned from the last byte to the first, with
/// the last byte as the fallback. Panics when `min_value > max_value`, so
/// that case is excluded here.
#[verifier::external_body]
pub(crate) fn random_u8_in_range(bytes: &[u8; 32], min_value: u8, max_value: u8) -> (r: u8)
    requires
        min_value <= max_value,
    ensures
        r as int == vrf_value_in_range(bytes@, min_value as int, max_value as int),
{
    ephemeral_vrf_sdk::rnd::random_u8_with_range(bytes, min_value, max_value)
}

} // verus!
