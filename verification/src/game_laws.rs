//! What holds of a dice session over any number of operations.
//!
//! The operations are gathered into one step from a session and an action to
//! the session that the action leaves, so that a property can be stated of
//! every action and of every sequence of them.

use crate::fees::{fee_amount, lemma_fee_bounds, lemma_fees_fit, lemma_split_conserves};
use crate::game_state::{prize_of, slot_of, GameError, GameState, GameStatus, PLATFORM_FEE_BPS};
use crate::identity::{all_distinct, is_member, Identity};
use crate::outcome::{lemma_winning_index_is_first_max, roll_of_digest, slot_total, winning_index, DiceRoll};
use vstd::prelude::*;

verus! {

/// A call of one operation, with what the host hands in.
pub enum GameAction {
    Join { player: Identity, now: i64 },
    Start { starter: Identity, now: i64 },
    Roll { player: Identity, digest: Seq<u8>, now: i64 },
    Finalize { now: i64 },
    Withdraw { player: Identity, now: i64 },
    Claim { claimant: Identity },
}

/// Why `action` is rejected in `s`, if it is.
pub open spec fn rejection(s: GameState, action: GameAction) -> Option<GameError> {
    match action {
        GameAction::Join { player, .. } => s.join_rejection(player),
        GameAction::Start { starter, .. } => s.start_rejection(starter),
        GameAction::Roll { player, .. } => s.roll_rejection(player),
        GameAction::Finalize { .. } => s.finalize_rejection(),
        GameAction::Withdraw { player, now } => s.withdraw_rejection(player, now),
        GameAction::Claim { claimant } => s.claim_rejection(claimant),
    }
}

/// The session that `action` leaves of `s`: `s` itself where the action is
/// rejected.
pub open spec fn step(s: GameState, action: GameAction) -> GameState {
    if rejection(s, action) is Some {
        s
    } else {
        match action {
            GameAction::Join { player, now } => s.after_join(player, now),
            GameAction::Start { now, .. } => s.after_start(now),
            GameAction::Roll { player, digest, now } => s.after_roll_settled(
                player,
                roll_of_digest(digest, now),
                now,
            ),
            GameAction::Finalize { now } => s.after_finalize(now),
            GameAction::Withdraw { player, .. } => s.after_withdraw(player),
            GameAction::Claim { .. } => s.after_claim(),
        }
    }
}

/// The session that a sequence of actions leaves of `s`, one after the other.
pub open spec fn run(s: GameState, actions: Seq<GameAction>) -> GameState
    decreases actions.len(),
{
    if actions.len() == 0 {
        s
    } else {
        step(run(s, actions.drop_last()), actions.last())
    }
}

/// Whether a session may pass from one status to the other in one step:
/// it stays, or it goes from waiting to playing or cancelled, or from playing
/// to completed.
pub open spec fn may_follow(from: GameStatus, to: GameStatus) -> bool {
    ||| from == to
    ||| from == GameStatus::Waiting && to == GameStatus::Playing
    ||| from == GameStatus::Waiting && to == GameStatus::Cancelled
    ||| from == GameStatus::Playing && to == GameStatus::Completed
}

/// Whether a status is one that no session leaves.
pub open spec fn is_terminal(status: GameStatus) -> bool {
    status == GameStatus::Completed || status == GameStatus::Cancelled
}

/// A session that is created is valid: its creator is its one participant
/// and the creator's stake is its pool.
pub proof fn lemma_created_is_valid(game_id: u64, creator: Identity, entry_fee: u64, max_players: u8, now: i64)
    requires
        GameState::create_rejection(entry_fee, max_players) is None,
    ensures
        GameState::created(game_id, creator, entry_fee, max_players, now).wf(),
        GameState::created(game_id, creator, entry_fee, max_players, now).total_pool == entry_fee,
        GameState::created(game_id, creator, entry_fee, max_players, now).players =~= seq![creator],
{
    assert(entry_fee * 1 == entry_fee) by (nonlinear_arith);
}

/// Recording a participant's outcome leaves a valid session valid and
/// playing, with the same participants and that participant's slot filled.
pub proof fn lemma_record_keeps_valid(s: GameState, player: Identity, roll: DiceRoll)
    requires
        s.wf(),
        s.roll_rejection(player) is None,
        roll.wf(),
    ensures
        s.after_roll(player, roll).wf(),
        s.after_roll(player, roll).status == GameStatus::Playing,
        s.after_roll(player, roll).players == s.players,
        0 <= slot_of(s.players, player) < s.players.len(),
        s.after_roll(player, roll).rolls[slot_of(s.players, player)] == Some(roll),
{
    let k = slot_of(s.players, player);
    assert(0 <= k < s.players.len() && s.players[k] == player);
}

/// Settling leaves a valid session valid, and names a participant.
pub proof fn lemma_settle_keeps_valid(s: GameState, now: i64)
    requires
        s.wf(),
        s.finalize_rejection() is None,
    ensures
        s.after_finalize(now).wf(),
        0 <= winning_index(s.rolls, s.players.len() as int) < s.players.len(),
{
    let n = s.players.len() as int;
    lemma_winning_index_is_first_max(s.rolls, n);
    let w = winning_index(s.rolls, n);
    assert(s.players[w] == s.winning_player());
}

/// Every action leaves a valid session valid.
pub proof fn lemma_step_keeps_valid(s: GameState, action: GameAction)
    requires
        s.wf(),
    ensures
        step(s, action).wf(),
{
    if rejection(s, action) is None {
        let n = s.players.len() as int;
        let fee = s.entry_fee as int;
        match action {
            GameAction::Join { player, .. } => {
                assert(fee * (n + 1) == fee * n + fee) by (nonlinear_arith);
                assert(all_distinct(s.players.push(player)));
            },
            GameAction::Start { .. } => {},
            GameAction::Roll { player, digest, now } => {
                let roll = roll_of_digest(digest, now);
                lemma_record_keeps_valid(s, player, roll);
                let rolled = s.after_roll(player, roll);
                if rolled.ready_to_settle() {
                    lemma_settle_keeps_valid(rolled, now);
                }
            },
            GameAction::Finalize { now } => {
                lemma_settle_keeps_valid(s, now);
            },
            GameAction::Withdraw { player, .. } => {
                let k = slot_of(s.players, player);
                assert(0 <= k < s.players.len() && s.players[k] == player);
                assert(fee * (n - 1) == fee * n - fee) by (nonlinear_arith);
                let rest = s.players.remove(k);
                assert forall|i: int, j: int| 0 <= i < j < rest.len() implies rest[i] != rest[j] by {
                    let a = if i < k { i } else { i + 1 };
                    let b = if j < k { j } else { j + 1 };
                    assert(rest[i] == s.players[a]);
                    assert(rest[j] == s.players[b]);
                }
            },
            GameAction::Claim { .. } => {},
        }
    }
}

/// Over any sequence of actions a valid session stays valid. In particular,
/// after every join the pool is one stake for each participant, and the
/// count of participants is the length of their list.
pub proof fn lemma_run_keeps_the_books(s: GameState, actions: Seq<GameAction>)
    requires
        s.wf(),
    ensures
        run(s, actions).wf(),
        run(s, actions).total_pool == run(s, actions).entry_fee * run(s, actions).players.len(),
        run(s, actions).current_players == run(s, actions).players.len(),
        run(s, actions).entry_fee == s.entry_fee,
    decreases actions.len(),
{
    if actions.len() > 0 {
        lemma_run_keeps_the_books(s, actions.drop_last());
        lemma_step_keeps_valid(run(s, actions.drop_last()), actions.last());
    }
}

/// A session moves forward only: an action leaves its status as it is or
/// takes it along one of the three edges, and nothing leaves a completed or
/// cancelled session.
pub proof fn lemma_status_moves_forward(s: GameState, action: GameAction)
    ensures
        may_follow(s.status, step(s, action).status),
        is_terminal(s.status) ==> step(s, action).status == s.status,
{
}

/// What is set once stays as it was set: the time of the start, the time of
/// the completion, the winner, and the mark that the prize was taken.
pub proof fn lemma_set_once(s: GameState, action: GameAction)
    requires
        s.wf(),
    ensures
        s.started_at is Some ==> step(s, action).started_at == s.started_at,
        s.completed_at is Some ==> step(s, action).completed_at == s.completed_at,
        s.winner is Some ==> step(s, action).winner == s.winner,
        s.prize_claimed ==> step(s, action).prize_claimed,
{
}

/// A rejected action changes nothing.
pub proof fn lemma_rejected_changes_nothing(s: GameState, action: GameAction)
    requires
        rejection(s, action) is Some,
    ensures
        step(s, action) == s,
{
}

/// A session that is full, or not waiting, or that already holds the
/// identity, takes no join: the call is rejected, with the error of the
/// first of these that applies, and the session stays as it was.
pub proof fn lemma_join_rejected(s: GameState, player: Identity, now: i64)
    requires
        s.status != GameStatus::Waiting || s.current_players >= s.max_players || is_member(s.players, player),
    ensures
        s.join_rejection(player) == Some(
            if s.status != GameStatus::Waiting {
                GameError::GameNotWaiting
            } else if s.current_players >= s.max_players {
                GameError::GameFull
            } else {
                GameError::AlreadyJoined
            },
        ),
        step(s, GameAction::Join { player, now }) == s,
{
}

/// While a session plays, someone who is no participant cannot roll, and a
/// participant whose outcome is recorded cannot roll again. After a roll the
/// same participant never rolls again, whatever is done in between: while
/// the session still plays the second roll is rejected as a second roll,
/// and once the session is settled it is rejected for the status.
pub proof fn lemma_one_roll_each(s: GameState, player: Identity, digest: Seq<u8>, now: i64, later: Seq<GameAction>)
    requires
        s.wf(),
        s.status == GameStatus::Playing,
    ensures
        !is_member(s.players, player) ==> s.roll_rejection(player) == Some(GameError::PlayerNotInGame),
        is_member(s.players, player) && s.rolls[slot_of(s.players, player)] is Some ==> s.roll_rejection(player)
            == Some(GameError::AlreadyRolled),
        s.roll_rejection(player) is None ==> {
            let rolled = step(s, GameAction::Roll { player, digest, now });
            &&& rolled.roll_rejection(player) == Some(
                if rolled.status == GameStatus::Playing {
                    GameError::AlreadyRolled
                } else {
                    GameError::GameNotPlaying
                },
            )
            &&& run(rolled, later).roll_rejection(player) is Some
        },
{
    if s.roll_rejection(player) is None {
        let roll = roll_of_digest(digest, now);
        let rolled = step(s, GameAction::Roll { player, digest, now });
        lemma_record_keeps_valid(s, player, roll);
        lemma_step_keeps_valid(s, GameAction::Roll { player, digest, now });
        let k = slot_of(s.players, player);
        assert(rolled.rolls[k] is Some);
        assert(is_member(rolled.players, player));
        lemma_roll_stays(rolled, player, later);
    }
}

/// The roll that completes the outcomes settles the session in the same
/// step: the session is completed at the time of the roll and its winner is
/// named. Any other roll leaves the session playing, with no winner and no
/// time of completion. Neither moves funds: the pool stays as it was.
pub proof fn lemma_last_roll_settles(s: GameState, player: Identity, digest: Seq<u8>, now: i64)
    requires
        s.wf(),
        s.roll_rejection(player) is None,
    ensures
        ({
            let roll = roll_of_digest(digest, now);
            let rolled = s.after_roll(player, roll);
            let t = step(s, GameAction::Roll { player, digest, now });
            &&& t.total_pool == s.total_pool
            &&& !t.prize_claimed
            &&& t.rolls == rolled.rolls
            &&& rolled.ready_to_settle() ==> {
                &&& t.status == GameStatus::Completed
                &&& t.winner == Some(rolled.winning_player())
                &&& t.completed_at == Some(now)
            }
            &&& !rolled.ready_to_settle() ==> {
                &&& t.status == GameStatus::Playing
                &&& t.winner is None
                &&& t.completed_at is None
            }
        }),
{
    lemma_record_keeps_valid(s, player, roll_of_digest(digest, now));
}

/// Once a participant's outcome is recorded, no sequence of actions makes a
/// second roll of that participant possible.
proof fn lemma_roll_stays(s: GameState, player: Identity, later: Seq<GameAction>)
    requires
        s.wf(),
        s.status == GameStatus::Playing || s.status == GameStatus::Completed,
        is_member(s.players, player),
        s.rolls[slot_of(s.players, player)] is Some,
    ensures
        ({
            let t = run(s, later);
            &&& t.wf()
            &&& t.status == GameStatus::Playing || t.status == GameStatus::Completed
            &&& t.players == s.players
            &&& t.rolls[slot_of(t.players, player)] is Some
            &&& t.roll_rejection(player) is Some
        }),
    decreases later.len(),
{
    if later.len() > 0 {
        let before = run(s, later.drop_last());
        lemma_roll_stays(s, player, later.drop_last());
        lemma_step_keeps_valid(before, later.last());
        let k = slot_of(s.players, player);
        assert(0 <= k < s.players.len() && s.players[k] == player);
    }
}

/// Settlement takes effect once: after a session was settled, by the last
/// roll or by a call of its own, it cannot be settled again, whatever was
/// done in between. The rejected call changes nothing.
pub proof fn lemma_settled_once(s: GameState, action: GameAction, later: Seq<GameAction>, now: i64)
    requires
        s.wf(),
        s.status == GameStatus::Playing,
        step(s, action).status == GameStatus::Completed,
    ensures
        ({
            let t = run(step(s, action), later);
            &&& t.status == GameStatus::Completed
            &&& t.winner == step(s, action).winner
            &&& t.completed_at == step(s, action).completed_at
            &&& rejection(t, GameAction::Finalize { now }) == Some(GameError::GameNotPlaying)
            &&& step(t, GameAction::Finalize { now }) == t
        }),
{
    lemma_step_keeps_valid(s, action);
    lemma_completed_stays(step(s, action), later);
}

/// The claim takes effect once: after the prize was taken nobody can take
/// it again, whatever was done in between. The rejected call changes
/// nothing.
pub proof fn lemma_claimed_once(s: GameState, claimant: Identity, later: Seq<GameAction>, again: Identity)
    requires
        s.wf(),
        s.claim_rejection(claimant) is None,
    ensures
        ({
            let t = run(s.after_claim(), later);
            &&& t.prize_claimed
            &&& t.claim_rejection(again) is Some
            &&& again == claimant ==> t.claim_rejection(again) == Some(GameError::PrizeAlreadyClaimed)
            &&& step(t, GameAction::Claim { claimant: again }) == t
        }),
{
    lemma_step_keeps_valid(s, GameAction::Claim { claimant });
    assert(step(s, GameAction::Claim { claimant }) == s.after_claim());
    lemma_completed_stays(s.after_claim(), later);
}

/// A completed session stays completed, and a prize that was taken stays
/// taken.
proof fn lemma_completed_stays(s: GameState, later: Seq<GameAction>)
    requires
        s.wf(),
        s.status == GameStatus::Completed,
    ensures
        run(s, later).wf(),
        run(s, later).status == GameStatus::Completed,
        s.prize_claimed ==> run(s, later).prize_claimed,
        run(s, later).winner == s.winner,
        run(s, later).completed_at == s.completed_at,
    decreases later.len(),
{
    if later.len() > 0 {
        lemma_completed_stays(s, later.drop_last());
        lemma_step_keeps_valid(run(s, later.drop_last()), later.last());
    }
}

/// The winner of a settled session is the participant at the first slot to
/// reach the highest total: no participant rolled more, and every
/// participant before the winner rolled less.
pub proof fn lemma_winner_is_first_max(s: GameState, now: i64)
    requires
        s.wf(),
        s.finalize_rejection() is None,
    ensures
        ({
            let w = winning_index(s.rolls, s.players.len() as int);
            &&& 0 <= w < s.players.len()
            &&& s.after_finalize(now).winner == Some(s.players[w])
            &&& forall|i: int| 0 <= i < s.players.len() ==> slot_total(#[trigger] s.rolls[i]) <= slot_total(s.rolls[w])
            &&& forall|i: int| 0 <= i < w ==> slot_total(#[trigger] s.rolls[i]) < slot_total(s.rolls[w])
        }),
{
    lemma_winning_index_is_first_max(s.rolls, s.players.len() as int);
}

/// The prize is never more than the pool: the winner is paid the pool less
/// the platform's fee, and that fee is the whole difference.
pub proof fn lemma_prize_within_pool(total_pool: u64)
    ensures
        prize_of(total_pool) <= total_pool,
        prize_of(total_pool) + fee_amount(total_pool as int, PLATFORM_FEE_BPS as int) == total_pool,
{
    lemma_fees_fit(total_pool, PLATFORM_FEE_BPS, None);
    lemma_split_conserves(total_pool, PLATFORM_FEE_BPS, None);
    lemma_fee_bounds(total_pool, PLATFORM_FEE_BPS);
}

/// A cancelled session is closed: every action on it is rejected and leaves
/// it as it was.
pub proof fn lemma_cancelled_is_closed(s: GameState, action: GameAction)
    requires
        s.status == GameStatus::Cancelled,
    ensures
        rejection(s, action) is Some,
        step(s, action) == s,
{
}

/// A session whose creator is still alone more than the expiry after its
/// creation gives the creator's stake back and is cancelled. The refund is
/// the whole pool, and it is made once: a second call is rejected for the
/// session's status.
pub proof fn lemma_expired_alone_is_refunded(
    game_id: u64,
    creator: Identity,
    entry_fee: u64,
    max_players: u8,
    created_at: i64,
    now: i64,
    later: i64,
)
    requires
        GameState::create_rejection(entry_fee, max_players) is None,
        now - created_at > crate::game_state::EXPIRY_SECONDS,
    ensures
        ({
            let s = GameState::created(game_id, creator, entry_fee, max_players, created_at);
            let t = s.after_withdraw(creator);
            &&& s.wf()
            &&& s.withdraw_rejection(creator, now) is None
            &&& s.total_pool == entry_fee
            &&& t.status == GameStatus::Cancelled
            &&& t.total_pool == 0
            &&& t.players.len() == 0
            &&& t.withdraw_rejection(creator, later) == Some(GameError::GameStarted)
        }),
{
    let s = GameState::created(game_id, creator, entry_fee, max_players, created_at);
    lemma_created_is_valid(game_id, creator, entry_fee, max_players, created_at);
    assert(s.players[0] == creator);
}

} // verus!
