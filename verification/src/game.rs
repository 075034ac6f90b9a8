//! The operations on a dice session.
//!
//! Each operation takes the caller's identity and the time from the host,
//! looks at the session as it is now, and either rejects the call and leaves
//! the session as it was, or changes it and returns what the host has to
//! announce and to move.

use crate::fees::{lemma_fees_fit, split};
use crate::game_laws::{lemma_record_keeps_valid, lemma_settle_keeps_valid, lemma_step_keeps_valid, GameAction};
use crate::game_state::{
    lemma_slot_of, prize_of, slot_of, DiceRolled, GameAccount, GameCompleted, GameCreated, GameError, GameStarted,
    GameState, GameStatus, PlayerJoined, PrizeClaimed, EXPIRY_SECONDS, MAX_PLAYERS, MIN_PLAYERS,
    PLATFORM_FEE_BPS,
};
use crate::identity::{has_no_duplicates, position, Identity};
use crate::outcome::{
    determine_winner, dice_from_digest, has_all_rolled, roll_for, roll_of_digest, seed_digest, DiceRoll,
};
use crate::time::has_expired;
use vstd::prelude::*;

verus! {

/// Creates a session for `max_players` participants at a stake of
/// `entry_fee` each. The creator is its first participant, and the creator's
/// stake, which the host moves into escrow, is its pool.
pub fn create_game(game_id: u64, creator: Identity, entry_fee: u64, max_players: u8, now: i64) -> (r: Result<
    (GameAccount, GameCreated),
    GameError,
>)
    ensures
        match r {
            Ok((game, notice)) => {
                &&& GameState::create_rejection(entry_fee, max_players) is None
                &&& game@ == GameState::created(game_id, creator, entry_fee, max_players, now)
                &&& game.wf()
                &&& notice == (GameCreated { game_id, creator, entry_fee, max_players })
            },
            Err(e) => GameState::create_rejection(entry_fee, max_players) == Some(e),
        },
{
    if max_players < MIN_PLAYERS || max_players > MAX_PLAYERS {
        return Err(GameError::InvalidMaxPlayers);
    }
    if entry_fee == 0 {
        return Err(GameError::InvalidEntryFee);
    }
    let mut players: Vec<Identity> = Vec::new();
    players.push(creator);
    let mut rolls: Vec<Option<DiceRoll>> = Vec::new();
    let mut i: u8 = 0;
    while i < max_players
        invariant
            0 <= i <= max_players,
            rolls@.len() == i,
            forall|k: int| 0 <= k < i ==> (#[trigger] rolls@[k]) is None,
        decreases max_players - i,
    {
        rolls.push(None);
        i += 1;
    }
    let game = GameAccount {
        game_id,
        creator,
        entry_fee,
        max_players,
        current_players: 1,
        total_pool: entry_fee,
        status: GameStatus::Waiting,
        created_at: now,
        started_at: None,
        completed_at: None,
        players,
        rolls,
        winner: None,
        prize_claimed: false,
    };
    proof {
        let made = GameState::created(game_id, creator, entry_fee, max_players, now);
        assert(game@.players =~= made.players);
        assert(game@.rolls =~= made.rolls);
    }
    Ok((game, GameCreated { game_id, creator, entry_fee, max_players }))
}

/// Adds `player` to a waiting session. The host moves the stake into escrow.
/// The join that fills the session begins play in the same call.
pub fn join_game(game: &mut GameAccount, player: Identity, now: i64) -> (r: Result<
    (PlayerJoined, Option<GameStarted>),
    GameError,
>)
    requires
        old(game).wf(),
    ensures
        final(game).wf(),
        match r {
            Ok((joined, started)) => {
                &&& old(game)@.join_rejection(player) is None
                &&& final(game)@ == old(game)@.after_join(player, now)
                &&& joined == (PlayerJoined {
                    game_id: old(game).game_id,
                    player,
                    current_players: final(game).current_players,
                })
                &&& started == if old(game)@.join_fills() {
                    Some(GameStarted { game_id: old(game).game_id, players_count: final(game).current_players })
                } else {
                    None
                }
            },
            Err(e) => old(game)@.join_rejection(player) == Some(e) && *final(game) == *old(game),
        },
{
    if game.status != GameStatus::Waiting {
        return Err(GameError::GameNotWaiting);
    }
    if game.current_players >= game.max_players {
        return Err(GameError::GameFull);
    }
    if position(&game.players, &player).is_some() {
        return Err(GameError::AlreadyJoined);
    }
    if game.entry_fee > u64::MAX - game.total_pool {
        return Err(GameError::PoolOverflow);
    }
    proof {
        lemma_step_keeps_valid(game@, GameAction::Join { player, now });
    }
    game.players.push(player);
    game.current_players += 1;
    game.total_pool += game.entry_fee;
    let joined = PlayerJoined { game_id: game.game_id, player, current_players: game.current_players };
    let mut started: Option<GameStarted> = None;
    if game.current_players == game.max_players {
        game.status = GameStatus::Playing;
        game.started_at = Some(now);
        started = Some(GameStarted { game_id: game.game_id, players_count: game.current_players });
    }
    Ok((joined, started))
}

/// Begins play in a waiting session of at least two participants. Only the
/// creator may do so.
pub fn start_game(game: &mut GameAccount, starter: Identity, now: i64) -> (r: Result<GameStarted, GameError>)
    requires
        old(game).wf(),
    ensures
        final(game).wf(),
        match r {
            Ok(started) => {
                &&& old(game)@.start_rejection(starter) is None
                &&& final(game)@ == old(game)@.after_start(now)
                &&& started == (GameStarted {
                    game_id: old(game).game_id,
                    players_count: old(game).current_players,
                })
            },
            Err(e) => old(game)@.start_rejection(starter) == Some(e) && *final(game) == *old(game),
        },
{
    if game.status != GameStatus::Waiting {
        return Err(GameError::GameNotWaiting);
    }
    if game.current_players < MIN_PLAYERS {
        return Err(GameError::NotEnoughPlayers);
    }
    if starter != game.creator {
        return Err(GameError::NotCreator);
    }
    game.status = GameStatus::Playing;
    game.started_at = Some(now);
    Ok(GameStarted { game_id: game.game_id, players_count: game.current_players })
}

/// Finds the slot of `player`, or the reason for which it may not roll.
fn roll_slot(game: &GameAccount, player: &Identity) -> (r: Result<usize, GameError>)
    requires
        game.wf(),
    ensures
        match r {
            Ok(slot) => game@.roll_rejection(*player) is None && slot == slot_of(game@.players, *player),
            Err(e) => game@.roll_rejection(*player) == Some(e),
        },
{
    if game.status != GameStatus::Playing {
        return Err(GameError::GameNotPlaying);
    }
    match position(&game.players, player) {
        None => Err(GameError::PlayerNotInGame),
        Some(slot) => {
            proof {
                lemma_slot_of(game@.players, *player, slot as int);
            }
            if game.rolls[slot].is_some() {
                Err(GameError::AlreadyRolled)
            } else {
                Ok(slot)
            }
        },
    }
}

/// Names the winner of a session in which every participant has rolled and
/// completes the session.
fn settle(game: &mut GameAccount, now: i64) -> (notice: GameCompleted)
    requires
        old(game).wf(),
        old(game)@.finalize_rejection() is None,
    ensures
        final(game).wf(),
        final(game)@ == old(game)@.after_finalize(now),
        notice == old(game)@.completion(),
{
    let (winner_index, winner_roll) = determine_winner(&game.rolls, game.current_players as usize);
    proof {
        lemma_settle_keeps_valid(game@, now);
    }
    let winner = game.players[winner_index];
    let prize_amount = dice_prize(game.total_pool);
    game.winner = Some(winner);
    game.status = GameStatus::Completed;
    game.completed_at = Some(now);
    GameCompleted { game_id: game.game_id, winner, prize_amount, winner_roll }
}

/// Records for `player` the outcome that `digest` stands for, and settles
/// the session in the same call where that outcome was the last one
/// outstanding. Returns the notice of the roll and, where the session was
/// settled, the notice of the settlement. No funds move.
pub fn roll_from_digest(game: &mut GameAccount, player: Identity, digest: &[u8; 32], now: i64) -> (r: Result<
    (DiceRolled, Option<GameCompleted>),
    GameError,
>)
    requires
        old(game).wf(),
    ensures
        final(game).wf(),
        match r {
            Ok((notice, done)) => {
                let roll = roll_of_digest(digest@, now);
                let rolled = old(game)@.after_roll(player, roll);
                &&& old(game)@.roll_rejection(player) is None
                &&& notice == (DiceRolled {
                    game_id: old(game).game_id,
                    player,
                    dice1: roll.dice1,
                    dice2: roll.dice2,
                    total: roll.total,
                })
                &&& if rolled.ready_to_settle() {
                    final(game)@ == rolled.after_finalize(now) && done == Some(rolled.completion())
                } else {
                    final(game)@ == rolled && done is None
                }
            },
            Err(e) => old(game)@.roll_rejection(player) == Some(e) && *final(game) == *old(game),
        },
{
    let slot = match roll_slot(game, &player) {
        Ok(slot) => slot,
        Err(e) => {
            return Err(e);
        },
    };
    let roll = dice_from_digest(digest, now);
    proof {
        lemma_record_keeps_valid(game@, player, roll);
    }
    game.rolls[slot] = Some(roll);
    let notice = DiceRolled { game_id: game.game_id, player, dice1: roll.dice1, dice2: roll.dice2, total: roll.total };
    if has_all_rolled(&game.rolls, game.current_players as usize) {
        let done = settle(game, now);
        Ok((notice, Some(done)))
    } else {
        Ok((notice, None))
    }
}

/// Rolls for `player` at `now`: hashes the seed of the roll, records the
/// outcome that the digest stands for, and settles the session in the same
/// call where every participant has then rolled.
pub fn roll_dice(game: &mut GameAccount, player: Identity, now: i64) -> (r: Result<
    (DiceRolled, Option<GameCompleted>),
    GameError,
>)
    requires
        old(game).wf(),
    ensures
        final(game).wf(),
        match r {
            Ok((notice, done)) => {
                let roll = roll_for(now, player, old(game).game_id);
                let rolled = old(game)@.after_roll(player, roll);
                &&& old(game)@.roll_rejection(player) is None
                &&& notice == (DiceRolled {
                    game_id: old(game).game_id,
                    player,
                    dice1: roll.dice1,
                    dice2: roll.dice2,
                    total: roll.total,
                })
                &&& if rolled.ready_to_settle() {
                    final(game)@ == rolled.after_finalize(now) && done == Some(rolled.completion())
                } else {
                    final(game)@ == rolled && done is None
                }
            },
            Err(e) => old(game)@.roll_rejection(player) == Some(e) && *final(game) == *old(game),
        },
{
    match roll_slot(game, &player) {
        Ok(_) => {},
        Err(e) => {
            return Err(e);
        },
    }
    let digest = seed_digest(now, &player, game.game_id);
    roll_from_digest(game, player, &digest, now)
}

/// Settles a session in which every participant has rolled: names the winner
/// and completes the session. No funds move; the winner claims the prize.
pub fn finalize_game(game: &mut GameAccount, now: i64) -> (r: Result<GameCompleted, GameError>)
    requires
        old(game).wf(),
    ensures
        final(game).wf(),
        match r {
            Ok(notice) => {
                &&& old(game)@.finalize_rejection() is None
                &&& final(game)@ == old(game)@.after_finalize(now)
                &&& notice == old(game)@.completion()
            },
            Err(e) => old(game)@.finalize_rejection() == Some(e) && *final(game) == *old(game),
        },
{
    if game.status != GameStatus::Playing {
        return Err(GameError::GameNotPlaying);
    }
    if !has_all_rolled(&game.rolls, game.current_players as usize) {
        return Err(GameError::WaitingForRolls);
    }
    Ok(settle(game, now))
}

/// What is paid out of a dice pool: the pool less the platform's fee.
pub fn dice_prize(total_pool: u64) -> (prize: u64)
    ensures
        prize == prize_of(total_pool),
{
    proof {
        lemma_fees_fit(total_pool, PLATFORM_FEE_BPS, None);
    }
    match split(total_pool, PLATFORM_FEE_BPS, None) {
        Some(cut) => cut.distributable,
        None => vstd::pervasive::unreached(),
    }
}

/// Gives `player` its stake back out of a session that has waited beyond its
/// expiry. Returns the amount that the host moves back. The participant
/// leaves the session, and the session is cancelled once nobody is left.
pub fn emergency_withdraw(game: &mut GameAccount, player: Identity, now: i64) -> (r: Result<u64, GameError>)
    requires
        old(game).wf(),
    ensures
        final(game).wf(),
        match r {
            Ok(refund) => {
                &&& old(game)@.withdraw_rejection(player, now) is None
                &&& final(game)@ == old(game)@.after_withdraw(player)
                &&& refund == old(game).entry_fee
            },
            Err(e) => old(game)@.withdraw_rejection(player, now) == Some(e) && *final(game) == *old(game),
        },
{
    if game.status != GameStatus::Waiting {
        return Err(GameError::GameStarted);
    }
    if !has_expired(game.created_at, now, EXPIRY_SECONDS) {
        return Err(GameError::NotExpired);
    }
    let slot = match position(&game.players, &player) {
        Some(slot) => slot,
        None => {
            return Err(GameError::PlayerNotInGame);
        },
    };
    proof {
        lemma_slot_of(game@.players, player, slot as int);
        lemma_step_keeps_valid(game@, GameAction::Withdraw { player, now });
        let n = game.players@.len() as int;
        let fee = game.entry_fee as int;
        assert(fee * n >= fee) by (nonlinear_arith)
            requires
                n >= 1,
                fee >= 0,
        ;
    }
    game.players.remove(slot);
    game.current_players -= 1;
    game.total_pool -= game.entry_fee;
    if game.current_players == 0 {
        game.status = GameStatus::Cancelled;
    }
    Ok(game.entry_fee)
}

/// Hands the prize to the winner of a completed session, once. Returns the
/// notice with the amount that the host moves out of escrow.
pub fn claim_prize(game: &mut GameAccount, claimant: Identity) -> (r: Result<PrizeClaimed, GameError>)
    requires
        old(game).wf(),
    ensures
        final(game).wf(),
        match r {
            Ok(notice) => {
                &&& old(game)@.claim_rejection(claimant) is None
                &&& final(game)@ == old(game)@.after_claim()
                &&& notice == (PrizeClaimed {
                    game_id: old(game).game_id,
                    winner: claimant,
                    prize_amount: prize_of(old(game).total_pool),
                })
            },
            Err(e) => old(game)@.claim_rejection(claimant) == Some(e) && *final(game) == *old(game),
        },
{
    if game.status != GameStatus::Completed {
        return Err(GameError::GameNotCompleted);
    }
    let is_winner = match game.winner {
        Some(w) => w == claimant,
        None => false,
    };
    if !is_winner {
        return Err(GameError::NotWinner);
    }
    if game.prize_claimed {
        return Err(GameError::PrizeAlreadyClaimed);
    }
    let prize_amount = dice_prize(game.total_pool);
    game.prize_claimed = true;
    Ok(PrizeClaimed { game_id: game.game_id, winner: claimant, prize_amount })
}

impl GameAccount {
    /// Whether the session is valid. A host that holds a session which it
    /// did not get from these operations tests it with this before it hands
    /// it to one of them.
    pub fn is_valid(&self) -> (valid: bool)
        ensures
            valid == self.wf(),
    {
        if self.max_players < MIN_PLAYERS || self.max_players > MAX_PLAYERS || self.entry_fee == 0 {
            return false;
        }
        let count = self.players.len();
        if count > self.max_players as usize || self.current_players as usize != count
            || self.rolls.len() != self.max_players as usize {
            return false;
        }
        if !has_no_duplicates(&self.players) {
            return false;
        }
        assert(0 <= self.entry_fee as int * count as int <= 0xffff_ffff_ffff_ffff * 6) by (nonlinear_arith)
            requires
                0 <= self.entry_fee as int <= 0xffff_ffff_ffff_ffff,
                0 <= count as int <= 6,
        ;
        if self.total_pool as u128 != (self.entry_fee as u128) * (count as u128) {
            return false;
        }
        let waiting = self.status == GameStatus::Waiting;
        let mut i: usize = 0;
        while i < self.rolls.len()
            invariant
                0 <= i <= self.rolls@.len(),
                count == self.players@.len(),
                waiting == (self.status == GameStatus::Waiting),
                forall|k: int|
                    0 <= k < i ==> match #[trigger] self.rolls@[k] {
                        Some(roll) => roll.wf() && k < self.players@.len() && self.status != GameStatus::Waiting,
                        None => true,
                    },
            decreases self.rolls@.len() - i,
        {
            match self.rolls[i] {
                Some(roll) => {
                    let faces_ok = 1 <= roll.dice1 && roll.dice1 <= 6 && 1 <= roll.dice2 && roll.dice2 <= 6;
                    if !faces_ok || roll.total != roll.dice1 + roll.dice2 || i >= count || waiting {
                        return false;
                    }
                },
                None => {},
            }
            i += 1;
        }
        let active = self.status == GameStatus::Playing || self.status == GameStatus::Completed;
        let completed = self.status == GameStatus::Completed;
        if active && count < MIN_PLAYERS as usize {
            return false;
        }
        if self.started_at.is_some() != active || self.completed_at.is_some() != completed {
            return false;
        }
        match self.winner {
            Some(w) => {
                if !completed || position(&self.players, &w).is_none() {
                    return false;
                }
            },
            None => {},
        }
        !self.prize_claimed || completed
    }
}

} // verus!
