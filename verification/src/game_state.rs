//! The dice session: its data, what makes it valid, and its transitions.
//!
//! A session waits for participants, plays, and ends completed or cancelled:
//!
//! ```text
//! Waiting --> Playing --> Completed
//!    |
//!    +--> Cancelled
//! ```
//!
//! Every operation is described here twice over the session's view: by the
//! reason for which it is rejected, if any, and by the session that it leaves
//! where it is not. The executable operations are proved to do exactly that.

use crate::fees::split_of;
use crate::identity::{all_distinct, is_member, Identity};
use crate::outcome::{all_rolled, slot_total, winning_index, DiceRoll};
use crate::time::expired;
use vstd::prelude::*;

verus! {

/// Fewest participants a session can be made for, and fewest it starts with.
pub const MIN_PLAYERS: u8 = 2;

/// Most participants a session can be made for.
pub const MAX_PLAYERS: u8 = 6;

/// The platform's fee on a dice session's pool, in basis points.
pub const PLATFORM_FEE_BPS: u16 = 250;

/// Seconds after its creation beyond which a session that still waits has
/// expired.
pub const EXPIRY_SECONDS: i64 = 3600;

#[derive(Clone, Copy, Debug, PartialEq, Eq, Structural)]
pub enum GameStatus {
    /// Open to participants.
    Waiting,
    /// Under way: participants roll.
    Playing,
    /// Settled: the winner is named.
    Completed,
    /// Ended without play.
    Cancelled,
}

/// Why a dice operation is rejected.
#[derive(Clone, Copy, Debug, PartialEq, Eq, Structural)]
pub enum GameError {
    InvalidMaxPlayers,
    InvalidEntryFee,
    GameFull,
    GameNotWaiting,
    GameNotPlaying,
    AlreadyJoined,
    PlayerNotInGame,
    AlreadyRolled,
    WaitingForRolls,
    NotEnoughPlayers,
    NotCreator,
    GameStarted,
    NotExpired,
    GameNotCompleted,
    NotWinner,
    PrizeAlreadyClaimed,
    /// One more stake would take the pool beyond what it can count.
    PoolOverflow,
}

impl GameError {
    /// What the error says.
    pub open spec fn text(self) -> Seq<char> {
        match self {
            GameError::InvalidMaxPlayers => "Invalid max players (must be 2-6)"@,
            GameError::InvalidEntryFee => "Invalid entry fee"@,
            GameError::GameFull => "Game is full"@,
            GameError::GameNotWaiting => "Game is not waiting for players"@,
            GameError::GameNotPlaying => "Game is not in playing state"@,
            GameError::AlreadyJoined => "Player already joined this game"@,
            GameError::PlayerNotInGame => "Player not in this game"@,
            GameError::AlreadyRolled => "Player already rolled dice"@,
            GameError::WaitingForRolls => "Waiting for all players to roll"@,
            GameError::NotEnoughPlayers => "Not enough players to start"@,
            GameError::NotCreator => "Only creator can start the game"@,
            GameError::GameStarted => "Game already started"@,
            GameError::NotExpired => "Game not expired yet"@,
            GameError::GameNotCompleted => "Game is not completed"@,
            GameError::NotWinner => "You are not the winner"@,
            GameError::PrizeAlreadyClaimed => "Prize already claimed"@,
            GameError::PoolOverflow => "Pool cannot hold another stake"@,
        }
    }

    /// What the error says.
    pub fn message(&self) -> (text: &'static str)
        ensures
            text@ == self.text(),
    {
        match self {
            GameError::InvalidMaxPlayers => "Invalid max players (must be 2-6)",
            GameError::InvalidEntryFee => "Invalid entry fee",
            GameError::GameFull => "Game is full",
            GameError::GameNotWaiting => "Game is not waiting for players",
            GameError::GameNotPlaying => "Game is not in playing state",
            GameError::AlreadyJoined => "Player already joined this game",
            GameError::PlayerNotInGame => "Player not in this game",
            GameError::AlreadyRolled => "Player already rolled dice",
            GameError::WaitingForRolls => "Waiting for all players to roll",
            GameError::NotEnoughPlayers => "Not enough players to start",
            GameError::NotCreator => "Only creator can start the game",
            GameError::GameStarted => "Game already started",
            GameError::NotExpired => "Game not expired yet",
            GameError::GameNotCompleted => "Game is not completed",
            GameError::NotWinner => "You are not the winner",
            GameError::PrizeAlreadyClaimed => "Prize already claimed",
            GameError::PoolOverflow => "Pool cannot hold another stake",
        }
    }
}

/// Notice that a session was created.
#[derive(Clone, Copy, Debug, PartialEq, Eq)]
pub struct GameCreated {
    pub game_id: u64,
    pub creator: Identity,
    pub entry_fee: u64,
    pub max_players: u8,
}

/// Notice that a participant joined.
#[derive(Clone, Copy, Debug, PartialEq, Eq)]
pub struct PlayerJoined {
    pub game_id: u64,
    pub player: Identity,
    pub current_players: u8,
}

/// Notice that play began.
#[derive(Clone, Copy, Debug, PartialEq, Eq)]
pub struct GameStarted {
    pub game_id: u64,
    pub players_count: u8,
}

/// Notice of a participant's outcome.
#[derive(Clone, Copy, Debug, PartialEq, Eq)]
pub struct DiceRolled {
    pub game_id: u64,
    pub player: Identity,
    pub dice1: u8,
    pub dice2: u8,
    pub total: u8,
}

/// Notice that a session was settled.
#[derive(Clone, Copy, Debug, PartialEq, Eq)]
pub struct GameCompleted {
    pub game_id: u64,
    pub winner: Identity,
    pub prize_amount: u64,
    pub winner_roll: u8,
}

/// Notice that the winner took the prize.
#[derive(Clone, Copy, Debug, PartialEq, Eq)]
pub struct PrizeClaimed {
    pub game_id: u64,
    pub winner: Identity,
    pub prize_amount: u64,
}

/// One dice session. Slot `i` of `rolls` belongs to `players[i]`.
#[derive(Clone, Debug, PartialEq, Eq)]
pub struct GameAccount {
    pub game_id: u64,
    pub creator: Identity,
    pub entry_fee: u64,
    pub max_players: u8,
    pub current_players: u8,
    pub total_pool: u64,
    pub status: GameStatus,
    pub created_at: i64,
    pub started_at: Option<i64>,
    pub completed_at: Option<i64>,
    pub players: Vec<Identity>,
    pub rolls: Vec<Option<DiceRoll>>,
    pub winner: Option<Identity>,
    pub prize_claimed: bool,
}

/// A dice session as a mathematical value.
pub struct GameState {
    pub game_id: u64,
    pub creator: Identity,
    pub entry_fee: u64,
    pub max_players: u8,
    pub current_players: u8,
    pub total_pool: u64,
    pub status: GameStatus,
    pub created_at: i64,
    pub started_at: Option<i64>,
    pub completed_at: Option<i64>,
    pub players: Seq<Identity>,
    pub rolls: Seq<Option<DiceRoll>>,
    pub winner: Option<Identity>,
    pub prize_claimed: bool,
}

impl View for GameAccount {
    type V = GameState;

    open spec fn view(&self) -> GameState {
        GameState {
            game_id: self.game_id,
            creator: self.creator,
            entry_fee: self.entry_fee,
            max_players: self.max_players,
            current_players: self.current_players,
            total_pool: self.total_pool,
            status: self.status,
            created_at: self.created_at,
            started_at: self.started_at,
            completed_at: self.completed_at,
            players: self.players@,
            rolls: self.rolls@,
            winner: self.winner,
            prize_claimed: self.prize_claimed,
        }
    }
}

/// The slot of `who` among `players`. It is meaningful where `who` is one of
/// them, and it is the only such index where no identity occurs twice.
pub open spec fn slot_of(players: Seq<Identity>, who: Identity) -> int {
    choose|i: int| 0 <= i < players.len() && players[i] == who
}

/// Among participants of whom none occurs twice, the slot of a participant
/// is the one index that holds it.
pub proof fn lemma_slot_of(players: Seq<Identity>, who: Identity, index: int)
    requires
        all_distinct(players),
        0 <= index < players.len(),
        players[index] == who,
    ensures
        slot_of(players, who) == index,
        is_member(players, who),
{
    let k = slot_of(players, who);
    assert(0 <= k < players.len() && players[k] == who);
    if k < index {
        assert(players[k] != players[index]);
    } else if index < k {
        assert(players[index] != players[k]);
    }
}

/// What is paid out of a dice pool: the pool less the platform's fee.
pub open spec fn prize_of(total_pool: u64) -> u64 {
    split_of(total_pool, PLATFORM_FEE_BPS, None).distributable
}

impl GameState {
    /// What holds of every session at all times.
    pub open spec fn wf(self) -> bool {
        // The session is made for two to six, at a stake.
        &&& MIN_PLAYERS <= self.max_players <= MAX_PLAYERS
        &&& self.entry_fee > 0
        // The count is the length of the list, within the capacity, and
        // there is one slot for each place.
        &&& self.current_players == self.players.len()
        &&& self.players.len() <= self.max_players
        &&& self.rolls.len() == self.max_players
        &&& all_distinct(self.players)
        // The pool is one stake for each participant.
        &&& self.total_pool == self.entry_fee * self.players.len()
        // An outcome is a valid roll, in the slot of a participant, and
        // none is recorded while the session waits.
        &&& forall|i: int|
            0 <= i < self.rolls.len() ==> match #[trigger] self.rolls[i] {
                Some(roll) => roll.wf() && i < self.players.len() && self.status != GameStatus::Waiting,
                None => true,
            }
        // Play takes two, and the two times are set with the status.
        &&& (self.status == GameStatus::Playing || self.status == GameStatus::Completed)
            ==> self.players.len() >= MIN_PLAYERS
        &&& self.started_at is Some <==> (self.status == GameStatus::Playing || self.status
            == GameStatus::Completed)
        &&& self.completed_at is Some <==> self.status == GameStatus::Completed
        // There is no winner until the session is completed, and the winner
        // is a participant. Only a completed session's prize is taken.
        &&& match self.winner {
            Some(w) => self.status == GameStatus::Completed && is_member(self.players, w),
            None => true,
        }
        &&& self.prize_claimed ==> self.status == GameStatus::Completed
    }

    /// Why a session with these terms cannot be created, if it cannot.
    pub open spec fn create_rejection(entry_fee: u64, max_players: u8) -> Option<GameError> {
        if !(MIN_PLAYERS <= max_players <= MAX_PLAYERS) {
            Some(GameError::InvalidMaxPlayers)
        } else if entry_fee == 0 {
            Some(GameError::InvalidEntryFee)
        } else {
            None
        }
    }

    /// The session that `creator` creates at `now`: it waits, the creator is
    /// its one participant and the creator's stake is its pool.
    pub open spec fn created(game_id: u64, creator: Identity, entry_fee: u64, max_players: u8, now: i64) -> GameState {
        GameState {
            game_id,
            creator,
            entry_fee,
            max_players,
            current_players: 1,
            total_pool: entry_fee,
            status: GameStatus::Waiting,
            created_at: now,
            started_at: None,
            completed_at: None,
            players: seq![creator],
            rolls: Seq::new(max_players as nat, |i: int| None::<DiceRoll>),
            winner: None,
            prize_claimed: false,
        }
    }

    /// Why `player` cannot join, if it cannot.
    pub open spec fn join_rejection(self, player: Identity) -> Option<GameError> {
        if self.status != GameStatus::Waiting {
            Some(GameError::GameNotWaiting)
        } else if self.current_players >= self.max_players {
            Some(GameError::GameFull)
        } else if is_member(self.players, player) {
            Some(GameError::AlreadyJoined)
        } else if self.total_pool + self.entry_fee > u64::MAX {
            Some(GameError::PoolOverflow)
        } else {
            None
        }
    }

    /// Whether the join of one more participant fills the session.
    pub open spec fn join_fills(self) -> bool {
        self.current_players + 1 == self.max_players
    }

    /// The session after `player` joined at `now`: one more participant, one
    /// more stake in the pool, and play begun where the session is now full.
    pub open spec fn after_join(self, player: Identity, now: i64) -> GameState {
        GameState {
            players: self.players.push(player),
            current_players: (self.current_players + 1) as u8,
            total_pool: (self.total_pool + self.entry_fee) as u64,
            status: if self.join_fills() {
                GameStatus::Playing
            } else {
                self.status
            },
            started_at: if self.join_fills() {
                Some(now)
            } else {
                self.started_at
            },
            ..self
        }
    }

    /// Why `starter` cannot start play, if it cannot.
    pub open spec fn start_rejection(self, starter: Identity) -> Option<GameError> {
        if self.status != GameStatus::Waiting {
            Some(GameError::GameNotWaiting)
        } else if self.current_players < MIN_PLAYERS {
            Some(GameError::NotEnoughPlayers)
        } else if starter != self.creator {
            Some(GameError::NotCreator)
        } else {
            None
        }
    }

    /// The session after play was started at `now`.
    pub open spec fn after_start(self, now: i64) -> GameState {
        GameState { status: GameStatus::Playing, started_at: Some(now), ..self }
    }

    /// Why `player` cannot roll, if it cannot.
    pub open spec fn roll_rejection(self, player: Identity) -> Option<GameError> {
        if self.status != GameStatus::Playing {
            Some(GameError::GameNotPlaying)
        } else if !is_member(self.players, player) {
            Some(GameError::PlayerNotInGame)
        } else if self.rolls[slot_of(self.players, player)] is Some {
            Some(GameError::AlreadyRolled)
        } else {
            None
        }
    }

    /// The session after `player`'s outcome `roll` was recorded in its slot.
    pub open spec fn after_roll(self, player: Identity, roll: DiceRoll) -> GameState {
        GameState { rolls: self.rolls.update(slot_of(self.players, player), Some(roll)), ..self }
    }

    /// Whether every participant has rolled, so that the session can be
    /// settled.
    pub open spec fn ready_to_settle(self) -> bool {
        all_rolled(self.rolls, self.players.len() as int)
    }

    /// The session after `player` rolled `roll` at `now`: the outcome
    /// recorded, and the session settled in the same step where that outcome
    /// was the last one outstanding.
    pub open spec fn after_roll_settled(self, player: Identity, roll: DiceRoll, now: i64) -> GameState {
        let rolled = self.after_roll(player, roll);
        if rolled.ready_to_settle() {
            rolled.after_finalize(now)
        } else {
            rolled
        }
    }

    /// The notice of the settlement that `player`'s roll of `roll` brings, if
    /// it brings one.
    pub open spec fn settled_by_roll(self, player: Identity, roll: DiceRoll) -> Option<GameCompleted> {
        let rolled = self.after_roll(player, roll);
        if rolled.ready_to_settle() {
            Some(rolled.completion())
        } else {
            None
        }
    }

    /// Why the session cannot be settled, if it cannot.
    pub open spec fn finalize_rejection(self) -> Option<GameError> {
        if self.status != GameStatus::Playing {
            Some(GameError::GameNotPlaying)
        } else if !self.ready_to_settle() {
            Some(GameError::WaitingForRolls)
        } else {
            None
        }
    }

    /// The participant whose slot wins.
    pub open spec fn winning_player(self) -> Identity {
        self.players[winning_index(self.rolls, self.players.len() as int)]
    }

    /// The session after it was settled at `now`: completed, with its winner
    /// named.
    pub open spec fn after_finalize(self, now: i64) -> GameState {
        GameState {
            winner: Some(self.winning_player()),
            status: GameStatus::Completed,
            completed_at: Some(now),
            ..self
        }
    }

    /// The notice of the settlement: the winner, the prize and the winning
    /// total.
    pub open spec fn completion(self) -> GameCompleted {
        GameCompleted {
            game_id: self.game_id,
            winner: self.winning_player(),
            prize_amount: prize_of(self.total_pool),
            winner_roll: slot_total(self.rolls[winning_index(self.rolls, self.players.len() as int)]) as u8,
        }
    }

    /// Why `player` cannot take its stake back at `now`, if it cannot.
    pub open spec fn withdraw_rejection(self, player: Identity, now: i64) -> Option<GameError> {
        if self.status != GameStatus::Waiting {
            Some(GameError::GameStarted)
        } else if !expired(self.created_at, now, EXPIRY_SECONDS) {
            Some(GameError::NotExpired)
        } else if !is_member(self.players, player) {
            Some(GameError::PlayerNotInGame)
        } else {
            None
        }
    }

    /// The session after `player` took its stake back: the participant gone,
    /// its stake out of the pool, and the session cancelled where nobody is
    /// left.
    pub open spec fn after_withdraw(self, player: Identity) -> GameState {
        GameState {
            players: self.players.remove(slot_of(self.players, player)),
            current_players: (self.current_players - 1) as u8,
            total_pool: (self.total_pool - self.entry_fee) as u64,
            status: if self.current_players == 1 {
                GameStatus::Cancelled
            } else {
                self.status
            },
            ..self
        }
    }

    /// Why `claimant` cannot take the prize, if it cannot.
    pub open spec fn claim_rejection(self, claimant: Identity) -> Option<GameError> {
        if self.status != GameStatus::Completed {
            Some(GameError::GameNotCompleted)
        } else if self.winner != Some(claimant) {
            Some(GameError::NotWinner)
        } else if self.prize_claimed {
            Some(GameError::PrizeAlreadyClaimed)
        } else {
            None
        }
    }

    /// The session after the prize was taken.
    pub open spec fn after_claim(self) -> GameState {
        GameState { prize_claimed: true, ..self }
    }
}

impl GameAccount {
    /// What holds of every session at all times.
    pub open spec fn wf(&self) -> bool {
        self@.wf()
    }

    /// Bytes that a stored session takes: a tag of eight bytes, then each
    /// field in turn, the two lists at their greatest length.
    pub fn space() -> (bytes: usize)
        ensures
            bytes == 453,
    {
        let tag: usize = 8;
        let identity: usize = 32;
        let time: usize = 8;
        let amount: usize = 8;
        let roll_slot: usize = 1 + 20;
        let players: usize = 4 + identity * (MAX_PLAYERS as usize);
        let rolls: usize = 4 + (MAX_PLAYERS as usize) * roll_slot;
        tag + 8 + identity + amount + 1 + 1 + amount + 1 + time + (1 + time) + (1 + time) + players + rolls + (1
            + identity) + 1
    }
}

} // verus!
