//! Fee splitting.
//!
//! A rate is given in basis points, hundredths of a percent. Every amount is
//! rounded down, and what rounding leaves over stays in escrow.

use vstd::prelude::*;

verus! {

/// How many basis points make the whole.
pub const BPS_DENOMINATOR: u64 = 10_000;

/// The fee that a rate of `fee_bps` basis points takes of `total_pool`.
pub open spec fn fee_amount(total_pool: int, fee_bps: int) -> int {
    total_pool * fee_bps / (BPS_DENOMINATOR as int)
}

/// The rate that an optional arbiter fee stands for: zero where there is none.
pub open spec fn arbiter_rate(arbiter_fee_bps: Option<u16>) -> int {
    match arbiter_fee_bps {
        Some(bps) => bps as int,
        None => 0,
    }
}

/// A pool cut into the platform's fee, the arbiter's fee and what is left for
/// the winners.
#[derive(Clone, Copy, Debug, PartialEq, Eq, Structural)]
pub struct FeeSplit {
    pub platform_fee: u64,
    pub arbiter_fee: u64,
    pub distributable: u64,
}

/// Whether both fees together can be taken out of `total_pool`.
pub open spec fn fees_fit(total_pool: u64, platform_fee_bps: u16, arbiter_fee_bps: Option<u16>) -> bool {
    fee_amount(total_pool as int, platform_fee_bps as int) + fee_amount(
        total_pool as int,
        arbiter_rate(arbiter_fee_bps),
    ) <= total_pool
}

/// The cut of `total_pool` at the two rates. It is meaningful where the fees
/// fit in the pool.
pub open spec fn split_of(total_pool: u64, platform_fee_bps: u16, arbiter_fee_bps: Option<u16>) -> FeeSplit {
    let platform = fee_amount(total_pool as int, platform_fee_bps as int);
    let arbiter = fee_amount(total_pool as int, arbiter_rate(arbiter_fee_bps));
    FeeSplit {
        platform_fee: platform as u64,
        arbiter_fee: arbiter as u64,
        distributable: (total_pool - platform - arbiter) as u64,
    }
}

/// A fee is never negative, and a rate of at most the whole takes at most the
/// pool.
pub proof fn lemma_fee_bounds(total_pool: u64, fee_bps: u16)
    ensures
        0 <= fee_amount(total_pool as int, fee_bps as int) <= 0xffff_ffff_ffff_ffff * 0xffff,
        fee_bps <= 10_000 ==> fee_amount(total_pool as int, fee_bps as int) <= total_pool,
{
    let p = total_pool as int;
    let a = fee_bps as int;
    assert(0 <= p * a / 10_000 <= 0xffff_ffff_ffff_ffff * 0xffff) by (nonlinear_arith)
        requires
            0 <= p <= 0xffff_ffff_ffff_ffff,
            0 <= a <= 0xffff,
    ;
    assert(a <= 10_000 ==> p * a / 10_000 <= p) by (nonlinear_arith)
        requires
            0 <= p,
            0 <= a,
    ;
}

/// The fee that `fee_bps` basis points take of `total_pool`, rounded down.
/// The result is wider than the pool because a rate above the whole takes
/// more than the pool holds.
pub fn fee_for_bps(total_pool: u64, fee_bps: u16) -> (fee: u128)
    ensures
        fee == fee_amount(total_pool as int, fee_bps as int),
{
    assert(0 <= total_pool as int * fee_bps as int <= 0xffff_ffff_ffff_ffff * 0xffff) by (nonlinear_arith)
        requires
            0 <= total_pool as int <= 0xffff_ffff_ffff_ffff,
            0 <= fee_bps as int <= 0xffff,
    ;
    (total_pool as u128) * (fee_bps as u128) / (BPS_DENOMINATOR as u128)
}

/// Cuts `total_pool` into the platform's fee, the arbiter's fee and the
/// distributable prize. Returns `None` exactly where the two fees together
/// exceed the pool, which rates that sum to at most the whole never do.
pub fn split(total_pool: u64, platform_fee_bps: u16, arbiter_fee_bps: Option<u16>) -> (cut: Option<FeeSplit>)
    ensures
        fees_fit(total_pool, platform_fee_bps, arbiter_fee_bps) ==> cut == Some(
            split_of(total_pool, platform_fee_bps, arbiter_fee_bps),
        ),
        !fees_fit(total_pool, platform_fee_bps, arbiter_fee_bps) ==> cut is None,
{
    let platform = fee_for_bps(total_pool, platform_fee_bps);
    let arbiter = match arbiter_fee_bps {
        Some(bps) => fee_for_bps(total_pool, bps),
        None => 0,
    };
    proof {
        lemma_fee_bounds(total_pool, platform_fee_bps);
        if let Some(bps) = arbiter_fee_bps {
            lemma_fee_bounds(total_pool, bps);
        }
    }
    if platform + arbiter > total_pool as u128 {
        return None;
    }
    let platform_fee = platform as u64;
    let arbiter_fee = arbiter as u64;
    Some(FeeSplit { platform_fee, arbiter_fee, distributable: total_pool - platform_fee - arbiter_fee })
}

/// What each of `winners` winners gets of `distributable`, rounded down:
/// `None` exactly where there is no winner to pay.
pub fn per_winner_share(distributable: u64, winners: u64) -> (share: Option<u64>)
    ensures
        winners == 0 ==> share is None,
        winners > 0 ==> share == Some((distributable as int / winners as int) as u64),
{
    if winners == 0 {
        None
    } else {
        Some(distributable / winners)
    }
}

/// Rates that sum to at most the whole never take more than the pool.
pub proof fn lemma_fees_fit(total_pool: u64, platform_fee_bps: u16, arbiter_fee_bps: Option<u16>)
    requires
        platform_fee_bps + arbiter_rate(arbiter_fee_bps) <= 10_000,
    ensures
        fees_fit(total_pool, platform_fee_bps, arbiter_fee_bps),
{
    let p = total_pool as int;
    let a = platform_fee_bps as int;
    let b = arbiter_rate(arbiter_fee_bps);
    assert(p * a / 10_000 + p * b / 10_000 <= p) by (nonlinear_arith)
        requires
            0 <= p,
            0 <= a,
            0 <= b,
            a + b <= 10_000,
    ;
}

/// The three parts of a cut add up to the pool: nothing is created and
/// nothing is lost.
pub proof fn lemma_split_conserves(total_pool: u64, platform_fee_bps: u16, arbiter_fee_bps: Option<u16>)
    requires
        fees_fit(total_pool, platform_fee_bps, arbiter_fee_bps),
    ensures
        ({
            let cut = split_of(total_pool, platform_fee_bps, arbiter_fee_bps);
            cut.platform_fee + cut.arbiter_fee + cut.distributable == total_pool
        }),
{
    let p = total_pool as int;
    let a = platform_fee_bps as int;
    let b = arbiter_rate(arbiter_fee_bps);
    assert(0 <= p * a / 10_000) by (nonlinear_arith)
        requires
            0 <= p,
            0 <= a,
    ;
    assert(0 <= p * b / 10_000) by (nonlinear_arith)
        requires
            0 <= p,
            0 <= b,
    ;
}

/// Equal shares never pay out more than there is, and what the division
/// leaves over is less than one unit per winner.
pub proof fn lemma_shares_bounded(distributable: u64, winners: u64)
    requires
        winners > 0,
    ensures
        ({
            let share = distributable as int / winners as int;
            &&& 0 <= share <= distributable
            &&& share * winners <= distributable
            &&& distributable - share * winners < winners
        }),
{
    let d = distributable as int;
    let n = winners as int;
    assert(0 <= d / n <= d && (d / n) * n <= d && d - (d / n) * n < n) by (nonlinear_arith)
        requires
            0 <= d,
            0 < n,
    ;
}

} // verus!
