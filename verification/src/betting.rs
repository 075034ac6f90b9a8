//! The operations on an arbitrated bet and on its side bets.

use crate::bet_laws::lemma_created_is_valid;
use crate::bet_state::{
    arbiter_fee_of, winnings_of, BetAccount, BetStatus, BetType, BettingError, GroupBetAccount,
    ARBITER_FEE_BPS, EXPIRY_SECONDS, PLATFORM_FEE_BPS,
};
use crate::fees::{lemma_fee_bounds, lemma_fees_fit, split, FeeSplit};
use crate::identity::Identity;
use crate::time::has_expired;
use vstd::prelude::*;

verus! {

/// Creates a bet of `bet_amount` a side between `participant_a`, who creates
/// it, and `participant_b`, to be decided by `arbiter` no sooner than
/// `minimum_decision_time` seconds after its activation.
pub fn create_two_party_bet(
    bet_id: u64,
    participant_a: Identity,
    participant_b: Identity,
    arbiter: Identity,
    bet_amount: u64,
    minimum_decision_time: i64,
    now: i64,
) -> (bet: BetAccount)
    ensures
        bet == BetAccount::created(
            bet_id,
            participant_a,
            participant_b,
            arbiter,
            bet_amount,
            minimum_decision_time,
            now,
        ),
        bet.wf(),
{
    let bet = BetAccount {
        bet_id,
        participant_a,
        participant_b,
        arbiter,
        bet_amount,
        participant_a_deposited: false,
        participant_b_deposited: false,
        total_pool: 0,
        created_at: now,
        bet_start_time: None,
        completed_at: None,
        minimum_decision_time,
        status: BetStatus::WaitingForDeposits,
        winner: None,
        bet_type: BetType::TwoParty,
        winnings_withdrawn: false,
        arbiter_fee_paid: false,
    };
    proof {
        lemma_created_is_valid(
            bet_id,
            participant_a,
            participant_b,
            arbiter,
            bet_amount,
            minimum_decision_time,
            now,
        );
    }
    bet
}

/// Takes the deposit of one of the two parties into a waiting bet. Returns
/// the amount that the host moves into escrow. The deposit that completes
/// the pair activates the bet in the same call.
pub fn deposit_bet_funds(bet: &mut BetAccount, depositor: Identity, now: i64) -> (r: Result<u64, BettingError>)
    requires
        old(bet).wf(),
    ensures
        final(bet).wf(),
        match r {
            Ok(amount) => {
                &&& old(bet).deposit_rejection(depositor) is None
                &&& *final(bet) == old(bet).after_deposit(depositor, now)
                &&& amount == old(bet).bet_amount
            },
            Err(e) => old(bet).deposit_rejection(depositor) == Some(e) && *final(bet) == *old(bet),
        },
{
    if bet.status != BetStatus::WaitingForDeposits {
        return Err(BettingError::InvalidBetStatus);
    }
    let as_first = depositor == bet.participant_a;
    if as_first {
        if bet.participant_a_deposited {
            return Err(BettingError::AlreadyDeposited);
        }
    } else if depositor == bet.participant_b {
        if bet.participant_b_deposited {
            return Err(BettingError::AlreadyDeposited);
        }
    } else {
        return Err(BettingError::UnauthorizedDepositor);
    }
    if bet.bet_amount > u64::MAX - bet.total_pool {
        return Err(BettingError::PoolOverflow);
    }
    proof {
        let amount = bet.bet_amount as int;
        let made = bet.deposits_made();
        assert(amount * (made + 1) == amount * made + amount) by (nonlinear_arith);
    }
    if as_first {
        bet.participant_a_deposited = true;
    } else {
        bet.participant_b_deposited = true;
    }
    bet.total_pool += bet.bet_amount;
    if bet.participant_a_deposited && bet.participant_b_deposited {
        bet.status = BetStatus::Active;
        bet.bet_start_time = Some(now);
    }
    Ok(bet.bet_amount)
}

/// Whether at `now` the bet's minimum decision time has passed.
pub fn is_decision_time_met(bet: &BetAccount, now: i64) -> (met: bool)
    ensures
        met == bet.decision_time_met(now),
{
    let start: i64 = match bet.bet_start_time {
        Some(t) => t,
        None => 0,
    };
    (now as i128) - (start as i128) >= (bet.minimum_decision_time as i128)
}

/// Records the arbiter's ruling: `winner` wins the bet, which is thereby
/// completed. A ruling on an active bet before the minimum decision time is
/// rejected for the time, whoever asks for it. After that only the arbiter
/// may rule, only on an active bet and only for one of the two parties; the
/// conditions are tested in this order. No funds move.
pub fn declare_winner(bet: &mut BetAccount, caller: Identity, winner: Identity, now: i64) -> (r: Result<
    (),
    BettingError,
>)
    requires
        old(bet).wf(),
    ensures
        final(bet).wf(),
        match r {
            Ok(_) => {
                &&& old(bet).declare_rejection(caller, winner, now) is None
                &&& *final(bet) == old(bet).after_declare(winner, now)
            },
            Err(e) => old(bet).declare_rejection(caller, winner, now) == Some(e) && *final(bet) == *old(bet),
        },
{
    let active = bet.status == BetStatus::Active;
    if active && !is_decision_time_met(bet, now) {
        return Err(BettingError::MinimumTimeNotMet);
    }
    if caller != bet.arbiter {
        return Err(BettingError::UnauthorizedArbiter);
    }
    if !active {
        return Err(BettingError::InvalidBetStatus);
    }
    if !(winner == bet.participant_a || winner == bet.participant_b) {
        return Err(BettingError::InvalidWinner);
    }
    bet.winner = Some(winner);
    bet.status = BetStatus::Completed;
    bet.completed_at = Some(now);
    Ok(())
}

/// Cuts an arbitrated pool into the platform's fee, the arbiter's fee and
/// the winnings.
pub fn arbitrated_split(total_pool: u64) -> (cut: FeeSplit)
    ensures
        cut.distributable == winnings_of(total_pool),
        cut.arbiter_fee == arbiter_fee_of(total_pool),
        cut.platform_fee + cut.arbiter_fee + cut.distributable == total_pool,
{
    proof {
        lemma_fees_fit(total_pool, PLATFORM_FEE_BPS, Some(ARBITER_FEE_BPS));
        lemma_fee_bounds(total_pool, PLATFORM_FEE_BPS);
        lemma_fee_bounds(total_pool, ARBITER_FEE_BPS);
    }
    match split(total_pool, PLATFORM_FEE_BPS, Some(ARBITER_FEE_BPS)) {
        Some(cut) => cut,
        None => vstd::pervasive::unreached(),
    }
}

/// Hands the winnings to the winner of a completed bet, once. Returns the
/// amount that the host moves out of escrow.
pub fn withdraw_winnings(bet: &mut BetAccount, claimant: Identity) -> (r: Result<u64, BettingError>)
    requires
        old(bet).wf(),
    ensures
        final(bet).wf(),
        match r {
            Ok(amount) => {
                &&& old(bet).withdraw_rejection(claimant) is None
                &&& *final(bet) == old(bet).after_withdraw()
                &&& amount == winnings_of(old(bet).total_pool)
            },
            Err(e) => old(bet).withdraw_rejection(claimant) == Some(e) && *final(bet) == *old(bet),
        },
{
    if bet.status != BetStatus::Completed {
        return Err(BettingError::BetNotCompleted);
    }
    let winner = match bet.winner {
        Some(w) => w,
        None => {
            return Err(BettingError::NoWinnerDeclared);
        },
    };
    if claimant != winner {
        return Err(BettingError::NotTheWinner);
    }
    if bet.winnings_withdrawn {
        return Err(BettingError::WinningsAlreadyWithdrawn);
    }
    let cut = arbitrated_split(bet.total_pool);
    bet.winnings_withdrawn = true;
    Ok(cut.distributable)
}

/// Pays the arbiter's fee out of a completed bet to `payee`, once. Only the
/// bet's arbiter is paid: any other payee is rejected and nothing changes.
/// Returns the amount that the host moves to `payee` out of escrow.
pub fn pay_arbiter_fee(bet: &mut BetAccount, payee: Identity) -> (r: Result<u64, BettingError>)
    requires
        old(bet).wf(),
    ensures
        final(bet).wf(),
        match r {
            Ok(amount) => {
                &&& old(bet).arbiter_fee_rejection(payee) is None
                &&& *final(bet) == old(bet).after_arbiter_fee()
                &&& amount == arbiter_fee_of(old(bet).total_pool)
            },
            Err(e) => old(bet).arbiter_fee_rejection(payee) == Some(e) && *final(bet) == *old(bet),
        },
{
    if bet.status != BetStatus::Completed {
        return Err(BettingError::BetNotCompleted);
    }
    if payee != bet.arbiter {
        return Err(BettingError::UnauthorizedArbiter);
    }
    if bet.arbiter_fee_paid {
        return Err(BettingError::ArbiterFeeAlreadyPaid);
    }
    let cut = arbitrated_split(bet.total_pool);
    bet.arbiter_fee_paid = true;
    Ok(cut.arbiter_fee)
}

/// Cancels a bet that still waits for deposits beyond its expiry.
pub fn cancel_expired_bet(bet: &mut BetAccount, now: i64) -> (r: Result<(), BettingError>)
    requires
        old(bet).wf(),
    ensures
        final(bet).wf(),
        match r {
            Ok(_) => old(bet).cancel_rejection(now) is None && *final(bet) == old(bet).after_cancel(),
            Err(e) => old(bet).cancel_rejection(now) == Some(e) && *final(bet) == *old(bet),
        },
{
    if bet.status != BetStatus::WaitingForDeposits {
        return Err(BettingError::CannotCancelActiveBet);
    }
    if !has_expired(bet.created_at, now, EXPIRY_SECONDS) {
        return Err(BettingError::NotExpiredYet);
    }
    bet.status = BetStatus::Cancelled;
    Ok(())
}

/// Places a side bet of `amount` on `choice`, one of the two parties of an
/// active bet. Returns the entry to be stored; the host moves `amount` from
/// the bettor into the bet's escrow. The bet itself is only read.
pub fn place_group_bet(bet: &BetAccount, bettor: Identity, choice: Identity, amount: u64, now: i64) -> (r: Result<
    GroupBetAccount,
    BettingError,
>)
    ensures
        match r {
            Ok(entry) => {
                &&& bet.group_bet_rejection(choice) is None
                &&& entry == (GroupBetAccount {
                    bet_id: bet.bet_id,
                    bettor,
                    choice,
                    amount,
                    timestamp: now,
                    claimed: false,
                })
            },
            Err(e) => bet.group_bet_rejection(choice) == Some(e),
        },
{
    if bet.status != BetStatus::Active {
        return Err(BettingError::InvalidBetStatus);
    }
    if !(choice == bet.participant_a || choice == bet.participant_b) {
        return Err(BettingError::InvalidChoice);
    }
    Ok(GroupBetAccount { bet_id: bet.bet_id, bettor, choice, amount, timestamp: now, claimed: false })
}

impl BetAccount {
    /// Whether the bet is valid. A host that holds a bet which it did not
    /// get from these operations tests it with this before it hands it to
    /// one of them.
    pub fn is_valid(&self) -> (valid: bool)
        ensures
            valid == self.wf(),
    {
        if self.bet_type != BetType::TwoParty {
            return false;
        }
        let made: u128 = (if self.participant_a_deposited {
            1u128
        } else {
            0u128
        }) + (if self.participant_b_deposited {
            1u128
        } else {
            0u128
        });
        assert(0 <= self.bet_amount as int * made as int <= 0xffff_ffff_ffff_ffff * 2) by (nonlinear_arith)
            requires
                0 <= self.bet_amount as int <= 0xffff_ffff_ffff_ffff,
                0 <= made as int <= 2,
        ;
        if self.total_pool as u128 != (self.bet_amount as u128) * made {
            return false;
        }
        let completed = self.status == BetStatus::Completed;
        let activated = self.status == BetStatus::Active || completed;
        if self.bet_start_time.is_some() != activated || self.completed_at.is_some() != completed {
            return false;
        }
        if activated && !(self.participant_a_deposited && self.participant_b_deposited) {
            return false;
        }
        match self.winner {
            Some(w) => {
                if !completed || !(w == self.participant_a || w == self.participant_b) {
                    return false;
                }
            },
            None => {},
        }
        (!self.winnings_withdrawn || completed) && (!self.arbiter_fee_paid || completed)
    }
}

} // verus!
