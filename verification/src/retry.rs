//! The retry discipline for order submission: bounded exponential
//! backoff — base 100 ms, doubling, capped at 2 s — over at most three
//! attempts, retrying only server errors and rate limits. The transport
//! that waits and resends lives outside the library; it asks these
//! functions what to do.

use vstd::prelude::*;

verus! {

/// How many submissions one order is given in all.
pub const MAX_RETRY_ATTEMPTS: u64 = 3;

/// The pause before re-sending, by how many attempts already failed.
pub open spec fn retry_delay_ms_spec(attempt: u64) -> u64 {
    if attempt == 0 {
        100
    } else if attempt == 1 {
        200
    } else if attempt == 2 {
        400
    } else if attempt == 3 {
        800
    } else if attempt == 4 {
        1600
    } else {
        2000
    }
}

/// Computes [`retry_delay_ms_spec`]: doubling from 100 ms, capped at 2 s.
pub fn retry_delay_ms(attempt: u64) -> (r: u64)
    ensures
        r == retry_delay_ms_spec(attempt),
        100 <= r <= 2000,
{
    if attempt >= 5 {
        2000
    } else {
        let raw: u64 = 100u64 << attempt;
        proof {
            assert(attempt < 5 ==> (100u64 << attempt) <= 1600) by (bit_vector);
            assert(0u64 < 5 ==> (100u64 << 0u64) == 100) by (bit_vector);
            assert(1u64 < 5 ==> (100u64 << 1u64) == 200) by (bit_vector);
            assert(2u64 < 5 ==> (100u64 << 2u64) == 400) by (bit_vector);
            assert(3u64 < 5 ==> (100u64 << 3u64) == 800) by (bit_vector);
            assert(4u64 < 5 ==> (100u64 << 4u64) == 1600) by (bit_vector);
        }
        raw
    }
}

/// Whether a response status is worth another attempt: server errors and
/// the rate limit, nothing else.
pub fn should_retry_status(status: u16) -> (r: bool)
    ensures
        r == (status == 429 || (500 <= status <= 599)),
{
    status == 429 || (500 <= status && status <= 599)
}

} // verus!
