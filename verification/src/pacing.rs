//! The constants of the pacing-gain cycle.
//!
//! The datapath paces at five fourths of the bottleneck rate for one round
//! trip, at three fourths of it for the next, and at the rate itself for six
//! more, under a window of two bandwidth-delay products. The controller only
//! keeps these four numbers current. Each is a 32-bit register of the datapath:
//! a value that does not fit is pinned to the largest one that does.

use vstd::prelude::*;

verus! {

/// Microseconds in a second: rates are in bytes per second, round-trip times in
/// microseconds.
pub const MICROS_PER_SECOND: u64 = 1_000_000;

/// `x`, or the largest value of a 32-bit register where `x` exceeds it.
pub open spec fn clip_u32(x: nat) -> nat {
    if x > u32::MAX as nat {
        u32::MAX as nat
    } else {
        x
    }
}

/// The rate of the drain phase: three fourths of `rate`, rounded down.
pub open spec fn spec_three_fourths_rate(rate: nat) -> nat {
    clip_u32(rate * 3 / 4)
}

/// The rate of the cruise phase: `rate` itself.
pub open spec fn spec_bottle_rate(rate: nat) -> nat {
    clip_u32(rate)
}

/// The rate of the probing phase: five fourths of `rate`, rounded down.
pub open spec fn spec_five_fourths_rate(rate: nat) -> nat {
    clip_u32(rate * 5 / 4)
}

/// The window cap: the bytes that `rate` delivers in two round trips of
/// `min_rtt_us` microseconds, rounded down.
pub open spec fn spec_cwnd_cap(rate: nat, min_rtt_us: nat) -> nat {
    clip_u32(2 * rate * min_rtt_us / 1_000_000)
}

/// The four constants that parameterise the bandwidth-probing program.
#[derive(Clone, Copy, Debug, PartialEq, Eq)]
pub struct PacingConstants {
    pub cwnd_cap: u32,
    pub bottle_rate: u32,
    pub three_fourths_rate: u32,
    pub five_fourths_rate: u32,
}

/// The constants for a bottleneck rate and a minimum round-trip time.
pub open spec fn spec_pacing_constants(rate: nat, min_rtt_us: nat) -> PacingConstants {
    PacingConstants {
        cwnd_cap: spec_cwnd_cap(rate, min_rtt_us) as u32,
        bottle_rate: spec_bottle_rate(rate) as u32,
        three_fourths_rate: spec_three_fourths_rate(rate) as u32,
        five_fourths_rate: spec_five_fourths_rate(rate) as u32,
    }
}

fn clip(x: u128) -> (r: u32)
    ensures
        r as nat == clip_u32(x as nat),
{
    if x > 0xffff_ffff {
        u32::MAX
    } else {
        x as u32
    }
}

/// Three fourths of `rate`, as a register holds it.
pub fn three_fourths_rate(rate: u64) -> (r: u32)
    ensures
        r as nat == spec_three_fourths_rate(rate as nat),
{
    clip((rate as u128) * 3 / 4)
}

/// `rate`, as a register holds it.
pub fn bottle_rate(rate: u64) -> (r: u32)
    ensures
        r as nat == spec_bottle_rate(rate as nat),
{
    clip(rate as u128)
}

/// Five fourths of `rate`, as a register holds it.
pub fn five_fourths_rate(rate: u64) -> (r: u32)
    ensures
        r as nat == spec_five_fourths_rate(rate as nat),
{
    clip((rate as u128) * 5 / 4)
}

/// Two bandwidth-delay products of `rate` and `min_rtt_us`, as a register
/// holds them.
pub fn cwnd_cap(rate: u64, min_rtt_us: u32) -> (r: u32)
    ensures
        r as nat == spec_cwnd_cap(rate as nat, min_rtt_us as nat),
{
    let wide_rate: u128 = rate as u128;
    let wide_rtt: u128 = min_rtt_us as u128;
    assert(2 * wide_rate * wide_rtt <= 2 * 0xffff_ffff_ffff_ffff * 0xffff_ffff) by (nonlinear_arith)
        requires
            wide_rate <= 0xffff_ffff_ffff_ffff,
            wide_rtt <= 0xffff_ffff,
    ;
    clip(2 * wide_rate * wide_rtt / 1_000_000)
}

/// The four constants for `rate` and `min_rtt_us`.
pub fn pacing_constants(rate: u64, min_rtt_us: u32) -> (c: PacingConstants)
    ensures
        c == spec_pacing_constants(rate as nat, min_rtt_us as nat),
{
    PacingConstants {
        cwnd_cap: cwnd_cap(rate, min_rtt_us),
        bottle_rate: bottle_rate(rate),
        three_fourths_rate: three_fourths_rate(rate),
        five_fourths_rate: five_fourths_rate(rate),
    }
}

} // verus!
