//! The arbitrated bet between two parties: its data, what makes it valid,
//! and its transitions.
//!
//! Both parties deposit the same amount. The deposit that completes the pair
//! activates the bet. The arbiter names the winner once the minimum decision
//! time has passed, the winner then takes the prize, and the arbiter its fee.
//! A bet that is still waiting a day after its creation can be cancelled.

use crate::fees::split_of;

use crate::identity::Identity;
use crate::time::expired;
use vstd::prelude::*;

verus! {

/// The platform's fee on an arbitrated pool, in basis points.
pub const PLATFORM_FEE_BPS: u16 = 2000;

/// The arbiter's fee on an arbitrated pool, in basis points.
pub const ARBITER_FEE_BPS: u16 = 200;

/// Seconds after its creation beyond which a bet that still waits for
/// deposits has expired.
pub const EXPIRY_SECONDS: i64 = 86400;

#[derive(Clone, Copy, Debug, PartialEq, Eq, Structural)]
pub enum BetStatus {
    WaitingForDeposits,
    Active,
    Completed,
    Cancelled,
}

#[derive(Clone, Copy, Debug, PartialEq, Eq, Structural)]
pub enum BetType {
    TwoParty,
    MultiParty,
    GroupBetting,
}

/// Why a betting operation is rejected.
#[derive(Clone, Copy, Debug, PartialEq, Eq, Structural)]
pub enum BettingError {
    InvalidBetStatus,
    AlreadyDeposited,
    UnauthorizedDepositor,
    UnauthorizedArbiter,
    MinimumTimeNotMet,
    InvalidWinner,
    BetNotCompleted,
    NoWinnerDeclared,
    NotTheWinner,
    InvalidChoice,
    MaxParticipantsReached,
    AlreadyJoined,
    CannotCancelActiveBet,
    NotExpiredYet,
    /// The winner has taken the prize before.
    WinningsAlreadyWithdrawn,
    /// The arbiter's fee has been paid before.
    ArbiterFeeAlreadyPaid,
    /// One more deposit would take the pool beyond what it can count.
    PoolOverflow,
}

impl BettingError {
    /// What the error says.
    pub open spec fn text(self) -> Seq<char> {
        match self {
            BettingError::InvalidBetStatus => "Invalid bet status for this operation"@,
            BettingError::AlreadyDeposited => "You have already deposited funds"@,
            BettingError::UnauthorizedDepositor => "You are not authorized to deposit to this bet"@,
            BettingError::UnauthorizedArbiter => "Only the arbiter can declare the winner"@,
            BettingError::MinimumTimeNotMet => "Minimum decision time has not passed yet"@,
            BettingError::InvalidWinner => "Winner must be one of the participants"@,
            BettingError::BetNotCompleted => "Bet has not been completed yet"@,
            BettingError::NoWinnerDeclared => "No winner has been declared"@,
            BettingError::NotTheWinner => "You are not the winner"@,
            BettingError::InvalidChoice => "Invalid choice for group bet"@,
            BettingError::MaxParticipantsReached => "Maximum participants reached"@,
            BettingError::AlreadyJoined => "You have already joined this bet"@,
            BettingError::CannotCancelActiveBet => "Cannot cancel an active bet"@,
            BettingError::NotExpiredYet => "Bet has not expired yet"@,
            BettingError::WinningsAlreadyWithdrawn => "Winnings have already been withdrawn"@,
            BettingError::ArbiterFeeAlreadyPaid => "Arbiter fee has already been paid"@,
            BettingError::PoolOverflow => "Pool cannot hold another deposit"@,
        }
    }

    /// What the error says.
    pub fn message(&self) -> (text: &'static str)
        ensures
            text@ == self.text(),
    {
        match self {
            BettingError::InvalidBetStatus => "Invalid bet status for this operation",
            BettingError::AlreadyDeposited => "You have already deposited funds",
            BettingError::UnauthorizedDepositor => "You are not authorized to deposit to this bet",
            BettingError::UnauthorizedArbiter => "Only the arbiter can declare the winner",
            BettingError::MinimumTimeNotMet => "Minimum decision time has not passed yet",
            BettingError::InvalidWinner => "Winner must be one of the participants",
            BettingError::BetNotCompleted => "Bet has not been completed yet",
            BettingError::NoWinnerDeclared => "No winner has been declared",
            BettingError::NotTheWinner => "You are not the winner",
            BettingError::InvalidChoice => "Invalid choice for group bet",
            BettingError::MaxParticipantsReached => "Maximum participants reached",
            BettingError::AlreadyJoined => "You have already joined this bet",
            BettingError::CannotCancelActiveBet => "Cannot cancel an active bet",
            BettingError::NotExpiredYet => "Bet has not expired yet",
            BettingError::WinningsAlreadyWithdrawn => "Winnings have already been withdrawn",
            BettingError::ArbiterFeeAlreadyPaid => "Arbiter fee has already been paid",
            BettingError::PoolOverflow => "Pool cannot hold another deposit",
        }
    }
}

/// One bet between two parties, decided by an arbiter.
#[derive(Clone, Copy, Debug, PartialEq, Eq)]
pub struct BetAccount {
    pub bet_id: u64,
    pub participant_a: Identity,
    pub participant_b: Identity,
    pub arbiter: Identity,
    pub bet_amount: u64,
    pub participant_a_deposited: bool,
    pub participant_b_deposited: bool,
    pub total_pool: u64,
    pub created_at: i64,
    pub bet_start_time: Option<i64>,
    pub completed_at: Option<i64>,
    pub minimum_decision_time: i64,
    pub status: BetStatus,
    pub winner: Option<Identity>,
    pub bet_type: BetType,
    /// Set when the winner takes the prize, and never cleared.
    pub winnings_withdrawn: bool,
    /// Set when the arbiter's fee is paid, and never cleared.
    pub arbiter_fee_paid: bool,
}

/// A side bet that a third party places on one of the two parties of a bet.
#[derive(Clone, Copy, Debug, PartialEq, Eq)]
pub struct GroupBetAccount {
    pub bet_id: u64,
    pub bettor: Identity,
    pub choice: Identity,
    pub amount: u64,
    pub timestamp: i64,
    pub claimed: bool,
}

/// Counters kept of an arbiter for ranking. No operation of the engine reads
/// them.
#[derive(Clone, Copy, Debug, PartialEq, Eq)]
pub struct ArbiterStats {
    pub arbiter: Identity,
    pub total_arbitrated: u64,
    pub total_volume: u64,
    pub dispute_rate: u16,
    pub average_decision_time: i64,
    pub reputation_score: u32,
}

/// What the winner of an arbitrated pool is paid: the pool less the
/// platform's and the arbiter's fee.
pub open spec fn winnings_of(total_pool: u64) -> u64 {
    split_of(total_pool, PLATFORM_FEE_BPS, Some(ARBITER_FEE_BPS)).distributable
}

/// What the arbiter of an arbitrated pool is paid.
pub open spec fn arbiter_fee_of(total_pool: u64) -> u64 {
    split_of(total_pool, PLATFORM_FEE_BPS, Some(ARBITER_FEE_BPS)).arbiter_fee
}

impl BetAccount {
    /// How many of the two deposits are in.
    pub open spec fn deposits_made(self) -> int {
        (if self.participant_a_deposited {
            1int
        } else {
            0int
        }) + (if self.participant_b_deposited {
            1int
        } else {
            0int
        })
    }

    /// Whether `who` is one of the two parties.
    pub open spec fn is_party(self, who: Identity) -> bool {
        who == self.participant_a || who == self.participant_b
    }

    /// Whether the bet has been activated: it is active or completed.
    pub open spec fn activated(self) -> bool {
        self.status == BetStatus::Active || self.status == BetStatus::Completed
    }

    /// What holds of every bet at all times.
    pub open spec fn wf(self) -> bool {
        &&& self.bet_type == BetType::TwoParty
        // The pool is one amount for each deposit made.
        &&& self.total_pool == self.bet_amount * self.deposits_made()
        // A bet is activated by its second deposit, and the two times are
        // set with the status.
        &&& self.bet_start_time is Some <==> self.activated()
        &&& self.activated() ==> self.participant_a_deposited && self.participant_b_deposited
        &&& self.completed_at is Some <==> self.status == BetStatus::Completed
        // There is no winner until the bet is completed, and the winner is
        // one of the parties. Only a completed bet pays.
        &&& match self.winner {
            Some(w) => self.status == BetStatus::Completed && self.is_party(w),
            None => true,
        }
        &&& self.winnings_withdrawn ==> self.status == BetStatus::Completed
        &&& self.arbiter_fee_paid ==> self.status == BetStatus::Completed
    }

    /// The bet that `participant_a` creates at `now`: it waits for both
    /// deposits, and its pool is empty.
    pub open spec fn created(
        bet_id: u64,
        participant_a: Identity,
        participant_b: Identity,
        arbiter: Identity,
        bet_amount: u64,
        minimum_decision_time: i64,
        now: i64,
    ) -> BetAccount {
        BetAccount {
            bet_id,
            participant_a,
            participant_b,
            arbiter,
            bet_amount,
            participant_a_deposited: false,
            participant_b_deposited: false,
            total_pool: 0,
            created_at: now,
            bet_start_time: None,
            completed_at: None,
            minimum_decision_time,
            status: BetStatus::WaitingForDeposits,
            winner: None,
            bet_type: BetType::TwoParty,
            winnings_withdrawn: false,
            arbiter_fee_paid: false,
        }
    }

    /// Why `depositor` cannot deposit, if it cannot. Who is both parties at
    /// once deposits as the first.
    pub open spec fn deposit_rejection(self, depositor: Identity) -> Option<BettingError> {
        if self.status != BetStatus::WaitingForDeposits {
            Some(BettingError::InvalidBetStatus)
        } else if depositor == self.participant_a {
            if self.participant_a_deposited {
                Some(BettingError::AlreadyDeposited)
            } else if self.total_pool + self.bet_amount > u64::MAX {
                Some(BettingError::PoolOverflow)
            } else {
                None
            }
        } else if depositor == self.participant_b {
            if self.participant_b_deposited {
                Some(BettingError::AlreadyDeposited)
            } else if self.total_pool + self.bet_amount > u64::MAX {
                Some(BettingError::PoolOverflow)
            } else {
                None
            }
        } else {
            Some(BettingError::UnauthorizedDepositor)
        }
    }

    /// The bet after `depositor` deposited at `now`: its deposit marked, the
    /// amount in the pool, and the bet active from `now` on where both
    /// deposits are in.
    pub open spec fn after_deposit(self, depositor: Identity, now: i64) -> BetAccount {
        let as_first = depositor == self.participant_a;
        let a = self.participant_a_deposited || as_first;
        let b = self.participant_b_deposited || !as_first;
        BetAccount {
            participant_a_deposited: a,
            participant_b_deposited: b,
            total_pool: (self.total_pool + self.bet_amount) as u64,
            status: if a && b {
                BetStatus::Active
            } else {
                self.status
            },
            bet_start_time: if a && b {
                Some(now)
            } else {
                self.bet_start_time
            },
            ..self
        }
    }

    /// The time from which the decision time counts: the activation, or zero
    /// for a bet that was never activated.
    pub open spec fn decision_clock_start(self) -> i64 {
        match self.bet_start_time {
            Some(t) => t,
            None => 0,
        }
    }

    /// Whether at `now` the minimum decision time has passed.
    pub open spec fn decision_time_met(self, now: i64) -> bool {
        now - self.decision_clock_start() >= self.minimum_decision_time
    }

    /// Why `caller` cannot declare `winner` at `now`, if it cannot. A ruling
    /// on an active bet before the minimum decision time is untimely
    /// whoever asks for it; only then is the caller looked at, then the
    /// status, then the winner.
    pub open spec fn declare_rejection(self, caller: Identity, winner: Identity, now: i64) -> Option<
        BettingError,
    > {
        if self.status == BetStatus::Active && !self.decision_time_met(now) {
            Some(BettingError::MinimumTimeNotMet)
        } else if caller != self.arbiter {
            Some(BettingError::UnauthorizedArbiter)
        } else if self.status != BetStatus::Active {
            Some(BettingError::InvalidBetStatus)
        } else if !self.is_party(winner) {
            Some(BettingError::InvalidWinner)
        } else {
            None
        }
    }

    /// The bet after `winner` was declared at `now`. No funds have moved.
    pub open spec fn after_declare(self, winner: Identity, now: i64) -> BetAccount {
        BetAccount { winner: Some(winner), status: BetStatus::Completed, completed_at: Some(now), ..self }
    }

    /// Why `claimant` cannot take the winnings, if it cannot.
    pub open spec fn withdraw_rejection(self, claimant: Identity) -> Option<BettingError> {
        if self.status != BetStatus::Completed {
            Some(BettingError::BetNotCompleted)
        } else if self.winner is None {
            Some(BettingError::NoWinnerDeclared)
        } else if self.winner != Some(claimant) {
            Some(BettingError::NotTheWinner)
        } else if self.winnings_withdrawn {
            Some(BettingError::WinningsAlreadyWithdrawn)
        } else {
            None
        }
    }

    /// The bet after the winner took the winnings.
    pub open spec fn after_withdraw(self) -> BetAccount {
        BetAccount { winnings_withdrawn: true, ..self }
    }

    /// Why the arbiter's fee cannot be paid to `payee`, if it cannot.
    pub open spec fn arbiter_fee_rejection(self, payee: Identity) -> Option<BettingError> {
        if self.status != BetStatus::Completed {
            Some(BettingError::BetNotCompleted)
        } else if payee != self.arbiter {
            Some(BettingError::UnauthorizedArbiter)
        } else if self.arbiter_fee_paid {
            Some(BettingError::ArbiterFeeAlreadyPaid)
        } else {
            None
        }
    }

    /// The bet after the arbiter's fee was paid.
    pub open spec fn after_arbiter_fee(self) -> BetAccount {
        BetAccount { arbiter_fee_paid: true, ..self }
    }

    /// Why the bet cannot be cancelled at `now`, if it cannot.
    pub open spec fn cancel_rejection(self, now: i64) -> Option<BettingError> {
        if self.status != BetStatus::WaitingForDeposits {
            Some(BettingError::CannotCancelActiveBet)
        } else if !expired(self.created_at, now, EXPIRY_SECONDS) {
            Some(BettingError::NotExpiredYet)
        } else {
            None
        }
    }

    /// The bet after it was cancelled.
    pub open spec fn after_cancel(self) -> BetAccount {
        BetAccount { status: BetStatus::Cancelled, ..self }
    }

    /// Why a side bet on `choice` cannot be placed, if it cannot.
    pub open spec fn group_bet_rejection(self, choice: Identity) -> Option<BettingError> {
        if self.status != BetStatus::Active {
            Some(BettingError::InvalidBetStatus)
        } else if !self.is_party(choice) {
            Some(BettingError::InvalidChoice)
        } else {
            None
        }
    }

    /// What has been paid out of escrow so far.
    pub open spec fn paid_out(self) -> int {
        (if self.winnings_withdrawn {
            winnings_of(self.total_pool) as int
        } else {
            0
        }) + (if self.arbiter_fee_paid {
            arbiter_fee_of(self.total_pool) as int
        } else {
            0
        })
    }
}

} // verus!
