//! What holds of an arbitrated bet over any number of operations.

use crate::bet_state::{arbiter_fee_of, winnings_of, BetAccount, BetStatus, BettingError, ARBITER_FEE_BPS, PLATFORM_FEE_BPS};
use crate::fees::{lemma_fees_fit, lemma_split_conserves};
use crate::identity::Identity;
use vstd::prelude::*;

verus! {

/// A call of one operation on a bet, with what the host hands in.
pub enum BetAction {
    Deposit { depositor: Identity, now: i64 },
    Declare { caller: Identity, winner: Identity, now: i64 },
    Withdraw { claimant: Identity },
    PayArbiter { payee: Identity },
    Cancel { now: i64 },
}

/// Why `action` is rejected in `s`, if it is.
pub open spec fn rejection(s: BetAccount, action: BetAction) -> Option<BettingError> {
    match action {
        BetAction::Deposit { depositor, .. } => s.deposit_rejection(depositor),
        BetAction::Declare { caller, winner, now } => s.declare_rejection(caller, winner, now),
        BetAction::Withdraw { claimant } => s.withdraw_rejection(claimant),
        BetAction::PayArbiter { payee } => s.arbiter_fee_rejection(payee),
        BetAction::Cancel { now } => s.cancel_rejection(now),
    }
}

/// The bet that `action` leaves of `s`: `s` itself where the action is
/// rejected.
pub open spec fn step(s: BetAccount, action: BetAction) -> BetAccount {
    if rejection(s, action) is Some {
        s
    } else {
        match action {
            BetAction::Deposit { depositor, now } => s.after_deposit(depositor, now),
            BetAction::Declare { winner, now, .. } => s.after_declare(winner, now),
            BetAction::Withdraw { .. } => s.after_withdraw(),
            BetAction::PayArbiter { .. } => s.after_arbiter_fee(),
            BetAction::Cancel { .. } => s.after_cancel(),
        }
    }
}

/// The bet that a sequence of actions leaves of `s`, one after the other.
pub open spec fn run(s: BetAccount, actions: Seq<BetAction>) -> BetAccount
    decreases actions.len(),
{
    if actions.len() == 0 {
        s
    } else {
        step(run(s, actions.drop_last()), actions.last())
    }
}

/// Whether a bet may pass from one status to the other in one step: it
/// stays, or it goes from waiting to active or cancelled, or from active to
/// completed.
pub open spec fn may_follow(from: BetStatus, to: BetStatus) -> bool {
    ||| from == to
    ||| from == BetStatus::WaitingForDeposits && to == BetStatus::Active
    ||| from == BetStatus::WaitingForDeposits && to == BetStatus::Cancelled
    ||| from == BetStatus::Active && to == BetStatus::Completed
}

/// Whether a status is one that no bet leaves.
pub open spec fn is_terminal(status: BetStatus) -> bool {
    status == BetStatus::Completed || status == BetStatus::Cancelled
}

/// A bet that is created is valid: it waits for both deposits and its pool
/// is empty.
pub proof fn lemma_created_is_valid(
    bet_id: u64,
    participant_a: Identity,
    participant_b: Identity,
    arbiter: Identity,
    bet_amount: u64,
    minimum_decision_time: i64,
    now: i64,
)
    ensures
        BetAccount::created(bet_id, participant_a, participant_b, arbiter, bet_amount, minimum_decision_time, now).wf(),
{
    assert(bet_amount * 0 == 0) by (nonlinear_arith);
}

/// Every action leaves a valid bet valid.
pub proof fn lemma_step_keeps_valid(s: BetAccount, action: BetAction)
    requires
        s.wf(),
    ensures
        step(s, action).wf(),
{
    if rejection(s, action) is None {
        if action is Deposit {
            let amount = s.bet_amount as int;
            let made = s.deposits_made();
            assert(amount * (made + 1) == amount * made + amount) by (nonlinear_arith);
        }
    }
}

/// Over any sequence of actions a valid bet stays valid. In particular the
/// pool is at all times one amount for each deposit made.
pub proof fn lemma_run_keeps_the_books(s: BetAccount, actions: Seq<BetAction>)
    requires
        s.wf(),
    ensures
        run(s, actions).wf(),
        run(s, actions).total_pool == run(s, actions).bet_amount * run(s, actions).deposits_made(),
        run(s, actions).bet_amount == s.bet_amount,
    decreases actions.len(),
{
    if actions.len() > 0 {
        lemma_run_keeps_the_books(s, actions.drop_last());
        lemma_step_keeps_valid(run(s, actions.drop_last()), actions.last());
    }
}

/// A bet moves forward only: an action leaves its status as it is or takes
/// it along one of the three edges, and nothing leaves a completed or
/// cancelled bet.
pub proof fn lemma_status_moves_forward(s: BetAccount, action: BetAction)
    ensures
        may_follow(s.status, step(s, action).status),
        is_terminal(s.status) ==> step(s, action).status == s.status,
{
}

/// What is set once stays as it was set: the time of the activation, the
/// time of the completion, the winner, and the marks of the two payments.
pub proof fn lemma_set_once(s: BetAccount, action: BetAction)
    requires
        s.wf(),
    ensures
        s.bet_start_time is Some ==> step(s, action).bet_start_time == s.bet_start_time,
        s.completed_at is Some ==> step(s, action).completed_at == s.completed_at,
        s.winner is Some ==> step(s, action).winner == s.winner,
        s.winnings_withdrawn ==> step(s, action).winnings_withdrawn,
        s.arbiter_fee_paid ==> step(s, action).arbiter_fee_paid,
{
}

/// A rejected action changes nothing.
pub proof fn lemma_rejected_changes_nothing(s: BetAccount, action: BetAction)
    requires
        rejection(s, action) is Some,
    ensures
        step(s, action) == s,
{
}

/// An activated bet stays activated and keeps the time of its activation.
proof fn lemma_activation_stays(s: BetAccount, later: Seq<BetAction>)
    requires
        s.wf(),
        s.activated(),
    ensures
        run(s, later).wf(),
        run(s, later).activated(),
        run(s, later).bet_start_time == s.bet_start_time,
    decreases later.len(),
{
    if later.len() > 0 {
        lemma_activation_stays(s, later.drop_last());
        lemma_step_keeps_valid(run(s, later.drop_last()), later.last());
    }
}

/// The deposit that completes the pair activates the bet, and it does so
/// once: from then on the bet is never waiting again, the time of its
/// activation never changes, and every further deposit is rejected for the
/// bet's status.
pub proof fn lemma_activated_once(
    s: BetAccount,
    depositor: Identity,
    now: i64,
    later: Seq<BetAction>,
    next_depositor: Identity,
)
    requires
        s.wf(),
        s.deposit_rejection(depositor) is None,
        s.after_deposit(depositor, now).participant_a_deposited,
        s.after_deposit(depositor, now).participant_b_deposited,
    ensures
        s.status == BetStatus::WaitingForDeposits,
        s.bet_start_time is None,
        ({
            let active = s.after_deposit(depositor, now);
            let t = run(active, later);
            &&& active.status == BetStatus::Active
            &&& active.bet_start_time == Some(now)
            &&& t.activated()
            &&& t.bet_start_time == Some(now)
            &&& t.deposit_rejection(next_depositor) == Some(BettingError::InvalidBetStatus)
        }),
{
    lemma_step_keeps_valid(s, BetAction::Deposit { depositor, now });
    lemma_activation_stays(s.after_deposit(depositor, now), later);
}

/// A ruling before the minimum decision time has passed always fails,
/// whoever asks for it and whoever is to win, and leaves the bet as it was.
/// On an active bet it fails for the time.
pub proof fn lemma_early_ruling_fails(s: BetAccount, caller: Identity, winner: Identity, now: i64)
    requires
        !s.decision_time_met(now),
    ensures
        s.declare_rejection(caller, winner, now) is Some,
        step(s, BetAction::Declare { caller, winner, now }) == s,
        s.status == BetStatus::Active ==> s.declare_rejection(caller, winner, now) == Some(
            BettingError::MinimumTimeNotMet,
        ),
{
}

/// A ruling on an active bet before the minimum decision time has passed is
/// rejected for the time, whether or not the caller is the arbiter and
/// whether or not the winner is a party.
pub proof fn lemma_early_ruling_is_untimely(s: BetAccount, caller: Identity, winner: Identity, now: i64)
    requires
        s.status == BetStatus::Active,
        !s.decision_time_met(now),
    ensures
        s.declare_rejection(caller, winner, now) == Some(BettingError::MinimumTimeNotMet),
        step(s, BetAction::Declare { caller, winner, now }) == s,
{
}

/// A completed bet stays completed, keeps its winner, and a payment that was
/// made stays made.
proof fn lemma_completed_stays(s: BetAccount, later: Seq<BetAction>)
    requires
        s.wf(),
        s.status == BetStatus::Completed,
    ensures
        run(s, later).wf(),
        run(s, later).status == BetStatus::Completed,
        run(s, later).winner == s.winner,
        run(s, later).arbiter == s.arbiter,
        run(s, later).total_pool == s.total_pool,
        s.winnings_withdrawn ==> run(s, later).winnings_withdrawn,
        s.arbiter_fee_paid ==> run(s, later).arbiter_fee_paid,
    decreases later.len(),
{
    if later.len() > 0 {
        lemma_completed_stays(s, later.drop_last());
        lemma_step_keeps_valid(run(s, later.drop_last()), later.last());
    }
}

/// Each payment is made once: after the winner took the winnings nobody can
/// take them again, and after the arbiter's fee was paid it cannot be paid
/// again, whatever was done in between. The rejected call changes nothing.
pub proof fn lemma_paid_once(s: BetAccount, action: BetAction, later: Seq<BetAction>, again: BetAction)
    requires
        s.wf(),
        rejection(s, action) is None,
        action is Withdraw && again is Withdraw || action is PayArbiter && again is PayArbiter,
    ensures
        ({
            let t = run(step(s, action), later);
            &&& rejection(t, again) is Some
            &&& step(t, again) == t
            &&& action is PayArbiter && again->payee == action->payee ==> rejection(t, again) == Some(
                BettingError::ArbiterFeeAlreadyPaid,
            )
            &&& action is Withdraw && again->claimant == action->claimant ==> rejection(t, again) == Some(
                BettingError::WinningsAlreadyWithdrawn,
            )
        }),
{
    lemma_step_keeps_valid(s, action);
    lemma_completed_stays(step(s, action), later);
}

/// The arbiter's fee goes to the arbiter: whoever else is named as payee is
/// rejected, and the bet stays as it was.
pub proof fn lemma_fee_is_the_arbiters(s: BetAccount, payee: Identity)
    requires
        payee != s.arbiter,
    ensures
        s.arbiter_fee_rejection(payee) is Some,
        s.status == BetStatus::Completed ==> s.arbiter_fee_rejection(payee) == Some(
            BettingError::UnauthorizedArbiter,
        ),
        step(s, BetAction::PayArbiter { payee }) == s,
{
}

/// The escrow is never overdrawn: what the winner and the arbiter are paid
/// together is no more than the pool, and the rest is the platform's fee.
pub proof fn lemma_payouts_within_pool(s: BetAccount)
    ensures
        0 <= s.paid_out() <= s.total_pool,
        winnings_of(s.total_pool) + arbiter_fee_of(s.total_pool) <= s.total_pool,
{
    lemma_fees_fit(s.total_pool, PLATFORM_FEE_BPS, Some(ARBITER_FEE_BPS));
    lemma_split_conserves(s.total_pool, PLATFORM_FEE_BPS, Some(ARBITER_FEE_BPS));
}

/// A cancelled bet is closed: every action on it is rejected and leaves it
/// as it was.
pub proof fn lemma_cancelled_is_closed(s: BetAccount, action: BetAction)
    requires
        s.status == BetStatus::Cancelled,
    ensures
        rejection(s, action) is Some,
        step(s, action) == s,
{
}

/// A bet that still waits for deposits more than the expiry after its
/// creation can be cancelled, and only once: the second call is rejected
/// for the bet's status.
pub proof fn lemma_expired_bet_cancels_once(s: BetAccount, now: i64, later: i64)
    requires
        s.status == BetStatus::WaitingForDeposits,
        now - s.created_at > crate::bet_state::EXPIRY_SECONDS,
    ensures
        s.cancel_rejection(now) is None,
        s.after_cancel().status == BetStatus::Cancelled,
        s.after_cancel().cancel_rejection(later) == Some(BettingError::CannotCancelActiveBet),
{
}

} // verus!
