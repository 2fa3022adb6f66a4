//! Search for the clock divider and oversampling factor of a baud rate.
//!
//! The UART derives its bit clock as `freq / (divider * oversample)`. The
//! search walks the even oversampling factors upward and takes the first
//! whose whole-number divider fits the divisor latch and rebuilds the rate
//! to within the tolerance.

use vstd::prelude::*;

verus! {

/// Accepted deviation of the rebuilt rate from the requested rate, in
/// hundredths of the requested rate.
pub const BAUDRATE_TOLERANCE: u32 = 3;

/// Largest oversampling factor; the register encodes it as zero.
pub const OSC_MAX: u8 = 32;

/// Smallest oversampling factor.
pub const OSC_MIN: u8 = 8;

/// Largest divider the divisor latch holds.
pub const BAUDRATE_DIV_MAX: u16 = 0xFFFF;

/// Smallest usable divider.
pub const BAUDRATE_DIV_MIN: u16 = 1;

/// Lowest baud rate the driver accepts.
pub const MINIMUM_BAUDRATE: u32 = 200;

/// The clock and the rate admit some divider at all: the rate is not below
/// the floor, the clock reaches the rate at the smallest divider and factor,
/// and does not exceed it at the largest.
pub open spec fn baudrate_in_range(freq: u32, baudrate: u32) -> bool {
    &&& baudrate >= MINIMUM_BAUDRATE
    &&& freq / (BAUDRATE_DIV_MIN as u32) >= baudrate * OSC_MIN
    &&& freq / (BAUDRATE_DIV_MAX as u32) <= baudrate * OSC_MAX
}

/// The whole-number divider for one oversampling factor: the clock divided
/// by the rate times the factor, rounded down.
pub open spec fn divider_for(freq: u32, baudrate: u32, osc: int) -> int {
    freq as int / (baudrate * osc)
}

/// The clock at which the divider of a factor would give the requested rate
/// exactly: `baudrate * osc * divider`. It never exceeds the clock, so the
/// rate that the UART rebuilds, `freq / (divider * osc)`, is never below the
/// requested rate.
pub open spec fn matched_clock(freq: u32, baudrate: u32, osc: int) -> int {
    baudrate * osc * divider_for(freq, baudrate, osc)
}

/// The factor is usable: its divider fits the divisor latch, and the rate it
/// rebuilds is within the tolerance of the requested rate. With
/// `m = baudrate * osc * divider` the rebuilt rate exceeds the requested
/// rate by `(freq - m) / m` of it.
pub open spec fn oversample_accepted(freq: u32, baudrate: u32, osc: int) -> bool {
    let div = divider_for(freq, baudrate, osc);
    let matched = matched_clock(freq, baudrate, osc);
    &&& BAUDRATE_DIV_MIN <= div <= BAUDRATE_DIV_MAX
    &&& 100 * (freq - matched) <= BAUDRATE_TOLERANCE * matched
}

/// The first accepted factor among `osc, osc + 2, ..` up to the maximum.
pub open spec fn first_accepted_from(freq: u32, baudrate: u32, osc: int) -> Option<int>
    decreases OSC_MAX + 2 - osc,
{
    if osc > OSC_MAX {
        None
    } else if oversample_accepted(freq, baudrate, osc) {
        Some(osc)
    } else {
        first_accepted_from(freq, baudrate, osc + 2)
    }
}

/// How a factor is written to the oversample register: the maximum as zero.
pub open spec fn encode_oversample(osc: int) -> u8 {
    if osc == OSC_MAX { 0u8 } else { osc as u8 }
}

/// The factor that a register value stands for.
pub open spec fn effective_oversample(osc: u8) -> int {
    if osc == 0 { OSC_MAX as int } else { osc as int }
}

/// The divider and the encoded oversampling factor for a clock and a rate,
/// or `None` where the rate cannot be produced.
pub open spec fn baudrate_setting(freq: u32, baudrate: u32) -> Option<(u16, u8)> {
    if !baudrate_in_range(freq, baudrate) {
        None
    } else {
        match first_accepted_from(freq, baudrate, OSC_MIN as int) {
            None => None,
            Some(osc) => Some((divider_for(freq, baudrate, osc) as u16, encode_oversample(osc))),
        }
    }
}

/// Computes `(divider, oversample)` for the kernel clock `freq` and the
/// requested `baudrate`.
pub fn calculate_baudrate(freq: u32, baudrate: u32) -> (r: Option<(u16, u8)>)
    ensures
        r == baudrate_setting(freq, baudrate),
{
    let f: u64 = freq as u64;
    let b: u64 = baudrate as u64;
    assert(OSC_MIN == 8 && OSC_MAX == 32);
    if baudrate < MINIMUM_BAUDRATE || f / (BAUDRATE_DIV_MIN as u64) < b * (OSC_MIN as u64) || f
        / (BAUDRATE_DIV_MAX as u64) > b * (OSC_MAX as u64) {
        return None;
    }
    let mut osc: u64 = OSC_MIN as u64;
    while osc <= OSC_MAX as u64
        invariant
            f == freq,
            b == baudrate,
            baudrate_in_range(freq, baudrate),
            OSC_MIN <= osc <= OSC_MAX + 2,
            first_accepted_from(freq, baudrate, OSC_MIN as int) == first_accepted_from(
                freq,
                baudrate,
                osc as int,
            ),
        decreases OSC_MAX + 2 - osc,
    {
        assert(b * osc <= 0xFFFF_FFFF * 32 && b * osc >= 1) by (nonlinear_arith)
            requires
                200 <= b <= 0xFFFF_FFFF,
                8 <= osc <= 32,
        ;
        let unit: u64 = b * osc;
        let div: u64 = f / unit;
        proof {
            lemma_matched_clock_bounded(freq, baudrate, osc as int);
        }
        if div >= BAUDRATE_DIV_MIN as u64 && div <= BAUDRATE_DIV_MAX as u64 {
            let matched: u64 = unit * div;
            if 100 * (f - matched) <= (BAUDRATE_TOLERANCE as u64) * matched {
                let osc_out: u8 = if osc == OSC_MAX as u64 {
                    0
                } else {
                    osc as u8
                };
                return Some((div as u16, osc_out));
            }
        }
        osc += 2;
    }
    None
}

/// What a divider and its factor rebuild exactly is never more than the
/// clock.
pub proof fn lemma_matched_clock_bounded(freq: u32, baudrate: u32, osc: int)
    requires
        baudrate >= 1,
        osc >= 1,
    ensures
        0 <= matched_clock(freq, baudrate, osc) <= freq,
{
    let f = freq as int;
    let unit = baudrate * osc;
    assert(unit >= 1) by (nonlinear_arith)
        requires
            unit == baudrate * osc,
            baudrate >= 1,
            osc >= 1,
    ;
    vstd::arithmetic::div_mod::lemma_fundamental_div_mod(f, unit);
    vstd::arithmetic::div_mod::lemma_mod_bound(f, unit);
    vstd::arithmetic::div_mod::lemma_div_pos_is_pos(f, unit);
    assert(unit * (f / unit) >= 0) by (nonlinear_arith)
        requires
            unit >= 1,
            f / unit >= 0,
    ;
}

/// What the search finds from `osc` on is accepted, lies between `osc` and
/// the maximum in steps of two, and no earlier step is accepted. Where it
/// finds nothing, no step is accepted.
pub proof fn lemma_first_accepted_is_least(freq: u32, baudrate: u32, osc: int)
    requires
        osc <= OSC_MAX + 2,
    ensures
        match first_accepted_from(freq, baudrate, osc) {
            Some(k) => {
                &&& osc <= k <= OSC_MAX
                &&& (k - osc) % 2 == 0
                &&& oversample_accepted(freq, baudrate, k)
                &&& forall|j: int|
                    osc <= j < k && (j - osc) % 2 == 0 ==> !oversample_accepted(freq, baudrate, j)
            },
            None => forall|j: int|
                osc <= j <= OSC_MAX && (j - osc) % 2 == 0 ==> !oversample_accepted(
                    freq,
                    baudrate,
                    j,
                ),
        },
    decreases OSC_MAX + 2 - osc,
{
    if osc <= OSC_MAX && !oversample_accepted(freq, baudrate, osc) {
        lemma_first_accepted_is_least(freq, baudrate, osc + 2);
    }
}

/// Every setting that the search returns rebuilds the requested rate to
/// within the tolerance.
///
/// With `factor` the oversampling factor that the returned value stands for:
/// the divider is the clock divided by the rate times the factor, rounded
/// down, and fits the divisor latch; the factor is even and in its range;
/// and the rebuilt rate `freq / (divider * factor)` is not below the
/// requested rate and exceeds it by no more than three hundredths of it,
/// which over whole numbers reads
/// `100 * (freq - baudrate * divider * factor) <= 3 * baudrate * divider * factor`.
pub proof fn lemma_setting_within_tolerance(freq: u32, baudrate: u32)
    requires
        baudrate_setting(freq, baudrate) is Some,
    ensures
        ({
            let (div, osc) = baudrate_setting(freq, baudrate).unwrap();
            let factor = effective_oversample(osc);
            let matched = baudrate * div * factor;
            &&& baudrate_in_range(freq, baudrate)
            &&& BAUDRATE_DIV_MIN <= div <= BAUDRATE_DIV_MAX
            &&& OSC_MIN <= factor <= OSC_MAX
            &&& factor % 2 == 0
            &&& div == freq as int / (baudrate * factor)
            &&& matched <= freq
            &&& 100 * (freq - matched) <= BAUDRATE_TOLERANCE * matched
        }),
{
    let k = first_accepted_from(freq, baudrate, OSC_MIN as int).unwrap();
    lemma_first_accepted_is_least(freq, baudrate, OSC_MIN as int);
    lemma_matched_clock_bounded(freq, baudrate, k);
    let d = divider_for(freq, baudrate, k);
    assert(baudrate * d * k == baudrate * k * d) by (nonlinear_arith);
}

/// Outside the range of usable pairs, and where no factor is accepted, the
/// search has no setting; in every other case it has one.
pub proof fn lemma_setting_exists_iff(freq: u32, baudrate: u32)
    ensures
        baudrate_setting(freq, baudrate) is Some <==> baudrate_in_range(freq, baudrate) && exists|
            osc: int,
        |
            OSC_MIN <= osc <= OSC_MAX && osc % 2 == 0 && oversample_accepted(freq, baudrate, osc),
{
    lemma_first_accepted_is_least(freq, baudrate, OSC_MIN as int);
    if baudrate_in_range(freq, baudrate) {
        match first_accepted_from(freq, baudrate, OSC_MIN as int) {
            Some(k) => {
                assert(OSC_MIN <= k <= OSC_MAX && k % 2 == 0 && oversample_accepted(
                    freq,
                    baudrate,
                    k,
                ));
            },
            None => {
                assert forall|osc: int|
                    OSC_MIN <= osc <= OSC_MAX && osc % 2 == 0 implies !oversample_accepted(
                    freq,
                    baudrate,
                    osc,
                ) by {
                    assert((osc - OSC_MIN) % 2 == 0);
                }
            },
        }
    }
}

} // verus!
