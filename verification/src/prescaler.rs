//! Clock prescaler selection, as the serial peripherals share it.
//!
//! A peripheral divides the main clock in two stages: a prescaler, chosen by
//! an index into the series 2, 4, 8, 64, 128, 1024, 2048, 4096, and a fine
//! divider of a few bits. The prescaler is raised step by step until the fine
//! divider fits.
use vstd::prelude::*;

verus! {

/// The fine divider after one more prescaler step: the step from index 2 and
/// the step from index 4 divide by eight, every other step by two.
pub open spec fn spec_step(value: u64, psc: u8) -> u64 {
    if psc == 2 || psc == 4 {
        value >> 3
    } else {
        value >> 1
    }
}

/// The fine divider and the prescaler index that are reached from `value` at
/// index `psc` by raising the index while the divider is above `limit`.
pub open spec fn spec_prescale_from(value: u64, limit: u64, psc: u8) -> (u64, u8)
    decreases value,
{
    if value > limit && psc < 255 {
        proof {
            assert(value > 0 ==> (value >> 1) < value && (value >> 3) < value) by (bit_vector);
        }
        spec_prescale_from(spec_step(value, psc), limit, (psc + 1) as u8)
    } else {
        (value, psc)
    }
}

/// The fine divider and the prescaler index for the total division `value`:
/// the index goes up from 0 while the divider is above `limit`.
pub open spec fn spec_prescale(value: u64, limit: u64) -> (u64, u8) {
    spec_prescale_from(value, limit, 0)
}

/// Finds the prescaler index and the fine divider for the total division
/// `value`, which fits 32 bits: the least index, counted from 0, at which the
/// divider is at most `limit`.
pub fn prescale(value: u64, limit: u64) -> (r: (u64, u8))
    requires
        value <= 0xffff_ffff,
    ensures
        r == spec_prescale(value, limit),
        r.0 <= limit,
        r.1 <= 32,
        limit >= 7 && value >= 1 ==> r.0 >= 1,
{
    let mut value = value;
    let mut psc: u8 = 0;
    let ghost start = value;
    assert(0xffff_ffffu64 >> 0u64 == 0xffff_ffffu64) by (bit_vector);
    while value > limit
        invariant
            psc <= 32,
            value <= 0xffff_ffffu64 >> (psc as u64),
            spec_prescale_from(value, limit, psc) == spec_prescale(start, limit),
            limit >= 7 && start >= 1 ==> value >= 1,
        decreases value,
    {
        let ghost before = value;
        assert(psc < 32) by (bit_vector)
            requires
                value <= 0xffff_ffffu64 >> (psc as u64),
                value > 0,
                psc <= 32,
        ;
        if psc == 2 || psc == 4 {
            value >>= 3;
        } else {
            value >>= 1;
        }
        assert(value < before && value <= (0xffff_ffffu64 >> ((psc + 1) as u64)) && (before > 7
            ==> value >= 1)) by (bit_vector)
            requires
                before > 0,
                psc < 32,
                before <= 0xffff_ffffu64 >> (psc as u64),
                value == before >> 1 || value == before >> 3,
        ;
        psc += 1;
    }
    (value, psc)
}

} // verus!
