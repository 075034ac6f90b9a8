use wager_escrow::game::{
    claim_prize, create_game, dice_prize, emergency_withdraw, finalize_game, join_game, roll_dice,
    roll_from_digest, start_game,
};
use wager_escrow::game_state::{
    DiceRolled, GameAccount, GameCompleted, GameCreated, GameError, GameStarted, GameStatus, PlayerJoined,
    PrizeClaimed, EXPIRY_SECONDS, MAX_PLAYERS, MIN_PLAYERS, PLATFORM_FEE_BPS,
};
use wager_escrow::identity::Identity;
use wager_escrow::outcome::DiceRoll;
use wager_escrow::time::has_expired;

fn id(n: u8) -> Identity {
    Identity::new([n; 32])
}

/// A digest whose two dice show `dice1` and `dice2`.
fn digest_for(dice1: u8, dice2: u8) -> [u8; 32] {
    let mut digest = [0u8; 32];
    digest[0] = dice1 - 1;
    digest[1] = dice2 - 1 + 6;
    digest
}

fn new_game(entry_fee: u64, max_players: u8) -> GameAccount {
    create_game(7, id(1), entry_fee, max_players, 1000).unwrap().0
}

/// A session of `n` participants, `id(1)` to `id(n)`, that plays.
fn playing(n: u8) -> GameAccount {
    let mut game = new_game(250, n);
    for k in 2..=n {
        join_game(&mut game, id(k), 1000 + k as i64).unwrap();
    }
    assert_eq!(game.status, GameStatus::Playing);
    game
}

/// A session of four participants of whom the first three rolled 7, 9 and 9.
fn rolled_7_9_9() -> GameAccount {
    let mut game = playing(4);
    roll_from_digest(&mut game, id(1), &digest_for(3, 4), 2000).unwrap();
    roll_from_digest(&mut game, id(2), &digest_for(4, 5), 2001).unwrap();
    roll_from_digest(&mut game, id(3), &digest_for(3, 6), 2002).unwrap();
    game
}

/// A session of four participants who rolled 7, 9, 9 and 3 and that still
/// plays: the last outcome is written into its slot, not rolled.
fn unsettled_7_9_9_3() -> GameAccount {
    let mut game = rolled_7_9_9();
    game.rolls[3] = Some(DiceRoll { dice1: 1, dice2: 2, total: 3, rolled_at: 2003 });
    assert!(game.is_valid());
    game
}

/// A session of four participants who rolled 7, 9, 9 and 3, settled at 2003
/// by the last roll.
fn settled_7_9_9_3() -> GameAccount {
    let mut game = rolled_7_9_9();
    roll_from_digest(&mut game, id(4), &digest_for(1, 2), 2003).unwrap();
    game
}

#[test]
fn a_new_session_waits_with_its_creator_and_one_stake() {
    let (game, notice) = create_game(7, id(1), 250, 4, 1000).unwrap();
    assert_eq!(notice, GameCreated { game_id: 7, creator: id(1), entry_fee: 250, max_players: 4 });
    assert_eq!(
        game,
        GameAccount {
            game_id: 7,
            creator: id(1),
            entry_fee: 250,
            max_players: 4,
            current_players: 1,
            total_pool: 250,
            status: GameStatus::Waiting,
            created_at: 1000,
            started_at: None,
            completed_at: None,
            players: vec![id(1)],
            rolls: vec![None, None, None, None],
            winner: None,
            prize_claimed: false,
        }
    );
    assert!(game.is_valid());
}

#[test]
fn a_session_is_made_for_two_to_six() {
    assert_eq!(create_game(7, id(1), 250, 1, 0).unwrap_err(), GameError::InvalidMaxPlayers);
    assert_eq!(create_game(7, id(1), 250, 0, 0).unwrap_err(), GameError::InvalidMaxPlayers);
    assert_eq!(create_game(7, id(1), 250, 7, 0).unwrap_err(), GameError::InvalidMaxPlayers);
    assert_eq!(create_game(7, id(1), 250, 255, 0).unwrap_err(), GameError::InvalidMaxPlayers);
    assert!(create_game(7, id(1), 250, 2, 0).is_ok());
    assert!(create_game(7, id(1), 250, 6, 0).is_ok());
    assert_eq!((MIN_PLAYERS, MAX_PLAYERS), (2, 6));
}

#[test]
fn a_session_needs_a_stake() {
    assert_eq!(create_game(7, id(1), 0, 4, 0).unwrap_err(), GameError::InvalidEntryFee);
    assert_eq!(create_game(7, id(1), 0, 9, 0).unwrap_err(), GameError::InvalidMaxPlayers);
    assert!(create_game(7, id(1), 1, 4, 0).is_ok());
    assert!(create_game(7, id(1), u64::MAX, 4, 0).is_ok());
}

#[test]
fn every_join_adds_one_participant_and_one_stake() {
    let mut game = new_game(250, 6);
    for k in 2..=5u8 {
        let (joined, started) = join_game(&mut game, id(k), 1100).unwrap();
        assert_eq!(joined, PlayerJoined { game_id: 7, player: id(k), current_players: k });
        assert_eq!(started, None);
        assert_eq!(game.total_pool, 250 * k as u64);
        assert_eq!(game.current_players as usize, game.players.len());
        assert_eq!(game.players.len(), k as usize);
        assert_eq!(game.players[k as usize - 1], id(k));
        assert_eq!(game.rolls, vec![None; 6]);
        assert_eq!(game.status, GameStatus::Waiting);
        assert_eq!(game.started_at, None);
        assert!(game.is_valid());
    }
}

#[test]
fn the_join_that_fills_the_session_starts_it() {
    let mut game = new_game(250, 3);
    assert_eq!(join_game(&mut game, id(2), 1100).unwrap().1, None);
    let (joined, started) = join_game(&mut game, id(3), 1200).unwrap();
    assert_eq!(joined, PlayerJoined { game_id: 7, player: id(3), current_players: 3 });
    assert_eq!(started, Some(GameStarted { game_id: 7, players_count: 3 }));
    assert_eq!(game.status, GameStatus::Playing);
    assert_eq!(game.started_at, Some(1200));
    assert_eq!(game.total_pool, 750);
    assert!(game.is_valid());
}

#[test]
fn a_session_that_does_not_wait_takes_no_join() {
    let mut game = playing(3);
    let before = game.clone();
    assert_eq!(join_game(&mut game, id(9), 1300).unwrap_err(), GameError::GameNotWaiting);
    assert_eq!(game, before);
    // The status is tested first: an identity that is in the session gets the same answer.
    assert_eq!(join_game(&mut game, id(1), 1300).unwrap_err(), GameError::GameNotWaiting);
    assert_eq!(game, before);
}

#[test]
fn a_full_session_takes_no_join() {
    let mut game = GameAccount {
        game_id: 7,
        creator: id(1),
        entry_fee: 250,
        max_players: 2,
        current_players: 2,
        total_pool: 500,
        status: GameStatus::Waiting,
        created_at: 1000,
        started_at: None,
        completed_at: None,
        players: vec![id(1), id(2)],
        rolls: vec![None, None],
        winner: None,
        prize_claimed: false,
    };
    assert!(game.is_valid());
    let before = game.clone();
    assert_eq!(join_game(&mut game, id(3), 1300).unwrap_err(), GameError::GameFull);
    assert_eq!(game, before);
    assert_eq!(join_game(&mut game, id(2), 1300).unwrap_err(), GameError::GameFull);
    assert_eq!(game, before);
}

#[test]
fn nobody_joins_twice() {
    let mut game = new_game(250, 4);
    join_game(&mut game, id(2), 1100).unwrap();
    let before = game.clone();
    assert_eq!(join_game(&mut game, id(2), 1200).unwrap_err(), GameError::AlreadyJoined);
    assert_eq!(game, before);
    assert_eq!(join_game(&mut game, id(1), 1200).unwrap_err(), GameError::AlreadyJoined);
    assert_eq!(game, before);
}

#[test]
fn a_stake_that_the_pool_cannot_count_is_refused() {
    let mut game = new_game(u64::MAX / 2 + 1, 4);
    let before = game.clone();
    assert_eq!(join_game(&mut game, id(2), 1100).unwrap_err(), GameError::PoolOverflow);
    assert_eq!(game, before);
    let mut game = new_game(u64::MAX / 2, 4);
    join_game(&mut game, id(2), 1100).unwrap();
    assert_eq!(game.total_pool, u64::MAX - 1);
    assert_eq!(join_game(&mut game, id(3), 1100).unwrap_err(), GameError::PoolOverflow);
}

#[test]
fn the_creator_starts_a_session_of_two() {
    let mut game = new_game(250, 6);
    join_game(&mut game, id(2), 1100).unwrap();
    let started = start_game(&mut game, id(1), 1500).unwrap();
    assert_eq!(started, GameStarted { game_id: 7, players_count: 2 });
    assert_eq!(game.status, GameStatus::Playing);
    assert_eq!(game.started_at, Some(1500));
    assert_eq!(game.total_pool, 500);
    assert!(game.is_valid());
}

#[test]
fn a_start_needs_two_participants_the_creator_and_a_waiting_session() {
    let mut game = new_game(250, 6);
    let before = game.clone();
    assert_eq!(start_game(&mut game, id(1), 1500).unwrap_err(), GameError::NotEnoughPlayers);
    assert_eq!(start_game(&mut game, id(2), 1500).unwrap_err(), GameError::NotEnoughPlayers);
    assert_eq!(game, before);
    join_game(&mut game, id(2), 1100).unwrap();
    let before = game.clone();
    assert_eq!(start_game(&mut game, id(2), 1500).unwrap_err(), GameError::NotCreator);
    assert_eq!(game, before);
    start_game(&mut game, id(1), 1500).unwrap();
    let before = game.clone();
    assert_eq!(start_game(&mut game, id(1), 1600).unwrap_err(), GameError::GameNotWaiting);
    assert_eq!(game, before);
    assert_eq!(game.started_at, Some(1500));
}

#[test]
fn a_roll_is_recorded_in_the_slot_of_its_participant() {
    let mut game = playing(3);
    let (notice, done) = roll_from_digest(&mut game, id(2), &digest_for(4, 5), 2000).unwrap();
    assert_eq!(notice, DiceRolled { game_id: 7, player: id(2), dice1: 4, dice2: 5, total: 9 });
    assert_eq!(done, None);
    assert_eq!(game.rolls, vec![None, Some(DiceRoll { dice1: 4, dice2: 5, total: 9, rolled_at: 2000 }), None]);
    assert_eq!(game.status, GameStatus::Playing);
    assert_eq!(game.winner, None);
    assert_eq!(game.completed_at, None);
    assert!(game.is_valid());
}

#[test]
fn the_last_roll_settles_the_session() {
    let mut game = playing(2);
    let (_, done) = roll_from_digest(&mut game, id(2), &digest_for(1, 1), 2000).unwrap();
    assert_eq!(done, None);
    assert_eq!(game.status, GameStatus::Playing);
    assert_eq!(game.winner, None);
    assert_eq!(game.completed_at, None);
    let (notice, done) = roll_from_digest(&mut game, id(1), &digest_for(2, 1), 2001).unwrap();
    assert_eq!(notice, DiceRolled { game_id: 7, player: id(1), dice1: 2, dice2: 1, total: 3 });
    assert_eq!(done, Some(GameCompleted { game_id: 7, winner: id(1), prize_amount: 488, winner_roll: 3 }));
    assert_eq!(game.status, GameStatus::Completed);
    assert_eq!(game.winner, Some(id(1)));
    assert_eq!(game.completed_at, Some(2001));
    assert_eq!(
        game.rolls,
        vec![
            Some(DiceRoll { dice1: 2, dice2: 1, total: 3, rolled_at: 2001 }),
            Some(DiceRoll { dice1: 1, dice2: 1, total: 2, rolled_at: 2000 }),
        ]
    );
    // The settling roll moves no funds.
    assert_eq!(game.total_pool, 500);
    assert!(!game.prize_claimed);
    assert!(game.is_valid());
}

#[test]
fn the_last_roll_names_the_first_to_reach_the_maximum() {
    let mut game = rolled_7_9_9();
    let (notice, done) = roll_from_digest(&mut game, id(4), &digest_for(1, 2), 2003).unwrap();
    assert_eq!(notice, DiceRolled { game_id: 7, player: id(4), dice1: 1, dice2: 2, total: 3 });
    assert_eq!(done, Some(GameCompleted { game_id: 7, winner: id(2), prize_amount: 975, winner_roll: 9 }));
    assert_eq!(game.winner, Some(id(2)));
    assert_eq!(game.status, GameStatus::Completed);
    assert_eq!(game.completed_at, Some(2003));
    assert_eq!(game, settled_7_9_9_3());
}

#[test]
fn a_roll_settles_only_when_every_participant_has_rolled() {
    let mut game = new_game(250, 6);
    join_game(&mut game, id(2), 1100).unwrap();
    join_game(&mut game, id(3), 1100).unwrap();
    start_game(&mut game, id(1), 1200).unwrap();
    assert_eq!(roll_from_digest(&mut game, id(3), &digest_for(6, 6), 2000).unwrap().1, None);
    assert_eq!(roll_from_digest(&mut game, id(1), &digest_for(6, 6), 2001).unwrap().1, None);
    assert_eq!(game.status, GameStatus::Playing);
    // Three of six places are taken: the third roll is the last.
    let done = roll_from_digest(&mut game, id(2), &digest_for(6, 5), 2002).unwrap().1;
    assert_eq!(done, Some(GameCompleted { game_id: 7, winner: id(1), prize_amount: 732, winner_roll: 12 }));
    assert_eq!(game.status, GameStatus::Completed);
}

#[test]
fn the_dice_come_from_the_hash_of_time_participant_and_session() {
    let mut game = playing(2);
    let (notice, done) = roll_dice(&mut game, id(1), 1000).unwrap();
    assert_eq!(notice, DiceRolled { game_id: 7, player: id(1), dice1: 4, dice2: 1, total: 5 });
    assert_eq!(done, None);
    assert_eq!(game.status, GameStatus::Playing);
    let (notice, done) = roll_dice(&mut game, id(2), 1001).unwrap();
    assert_eq!(notice, DiceRolled { game_id: 7, player: id(2), dice1: 6, dice2: 2, total: 8 });
    assert_eq!(done, Some(GameCompleted { game_id: 7, winner: id(2), prize_amount: 488, winner_roll: 8 }));
    assert_eq!(
        game.rolls,
        vec![
            Some(DiceRoll { dice1: 4, dice2: 1, total: 5, rolled_at: 1000 }),
            Some(DiceRoll { dice1: 6, dice2: 2, total: 8, rolled_at: 1001 }),
        ]
    );
    assert_eq!(game.status, GameStatus::Completed);
    assert_eq!(game.winner, Some(id(2)));
    assert_eq!(game.completed_at, Some(1001));
    assert_eq!(game.total_pool, 500);
    assert!(game.is_valid());
}

#[test]
fn the_same_seed_gives_the_same_dice() {
    let mut first = playing(2);
    let mut second = playing(2);
    assert_eq!(roll_dice(&mut first, id(2), 1000).unwrap(), roll_dice(&mut second, id(2), 1000).unwrap());
    assert_eq!(roll_dice(&mut first, id(1), 1001).unwrap().0.total, 2);
}

#[test]
fn nobody_rolls_twice() {
    let mut game = playing(3);
    roll_from_digest(&mut game, id(2), &digest_for(4, 5), 2000).unwrap();
    let before = game.clone();
    assert_eq!(roll_from_digest(&mut game, id(2), &digest_for(6, 6), 2001).unwrap_err(), GameError::AlreadyRolled);
    assert_eq!(roll_dice(&mut game, id(2), 2001).unwrap_err(), GameError::AlreadyRolled);
    assert_eq!(game, before);
    roll_dice(&mut game, id(1), 2002).unwrap();
    assert_eq!(roll_dice(&mut game, id(1), 2003).unwrap_err(), GameError::AlreadyRolled);
}

#[test]
fn nobody_rolls_again_after_the_settling_roll() {
    let mut game = settled_7_9_9_3();
    let before = game.clone();
    // The session no longer plays, and the status is tested first.
    assert_eq!(roll_dice(&mut game, id(4), 2004).unwrap_err(), GameError::GameNotPlaying);
    assert_eq!(roll_from_digest(&mut game, id(1), &digest_for(6, 6), 2004).unwrap_err(), GameError::GameNotPlaying);
    assert_eq!(game, before);
}

#[test]
fn only_participants_roll() {
    let mut game = playing(3);
    let before = game.clone();
    assert_eq!(roll_dice(&mut game, id(9), 2000).unwrap_err(), GameError::PlayerNotInGame);
    assert_eq!(roll_from_digest(&mut game, id(9), &digest_for(1, 1), 2000).unwrap_err(), GameError::PlayerNotInGame);
    assert_eq!(game, before);
}

#[test]
fn rolls_are_taken_only_while_the_session_plays() {
    let mut game = new_game(250, 3);
    join_game(&mut game, id(2), 1100).unwrap();
    let before = game.clone();
    assert_eq!(roll_dice(&mut game, id(1), 2000).unwrap_err(), GameError::GameNotPlaying);
    assert_eq!(roll_dice(&mut game, id(9), 2000).unwrap_err(), GameError::GameNotPlaying);
    assert_eq!(game, before);
    let mut game = unsettled_7_9_9_3();
    finalize_game(&mut game, 3000).unwrap();
    assert_eq!(roll_dice(&mut game, id(1), 3001).unwrap_err(), GameError::GameNotPlaying);
}

#[test]
fn the_first_to_reach_the_maximum_wins() {
    let mut game = unsettled_7_9_9_3();
    let done = finalize_game(&mut game, 3000).unwrap();
    assert_eq!(done, GameCompleted { game_id: 7, winner: id(2), prize_amount: 975, winner_roll: 9 });
    assert_eq!(game.winner, Some(id(2)));
    assert_eq!(game.status, GameStatus::Completed);
    assert_eq!(game.completed_at, Some(3000));
    assert_eq!(game.total_pool, 1000);
    assert!(!game.prize_claimed);
    assert!(game.is_valid());
}

#[test]
fn settlement_waits_for_every_roll() {
    let mut game = playing(3);
    roll_from_digest(&mut game, id(1), &digest_for(6, 6), 2000).unwrap();
    roll_from_digest(&mut game, id(3), &digest_for(6, 6), 2000).unwrap();
    let before = game.clone();
    assert_eq!(finalize_game(&mut game, 3000).unwrap_err(), GameError::WaitingForRolls);
    assert_eq!(game, before);
}

#[test]
fn a_session_is_settled_once() {
    let mut game = new_game(250, 3);
    assert_eq!(finalize_game(&mut game, 3000).unwrap_err(), GameError::GameNotPlaying);
    let mut game = unsettled_7_9_9_3();
    finalize_game(&mut game, 3000).unwrap();
    let before = game.clone();
    assert_eq!(finalize_game(&mut game, 3001).unwrap_err(), GameError::GameNotPlaying);
    assert_eq!(game, before);
    assert_eq!(game.completed_at, Some(3000));
}

#[test]
fn a_session_that_the_last_roll_settled_is_not_settled_again() {
    let mut game = settled_7_9_9_3();
    let before = game.clone();
    assert_eq!(finalize_game(&mut game, 3000).unwrap_err(), GameError::GameNotPlaying);
    assert_eq!(game, before);
    assert_eq!(game.completed_at, Some(2003));
    assert_eq!(game.winner, Some(id(2)));
}

#[test]
fn the_winner_claims_the_pool_less_the_fee() {
    let mut game = settled_7_9_9_3();
    let claimed = claim_prize(&mut game, id(2)).unwrap();
    assert_eq!(claimed, PrizeClaimed { game_id: 7, winner: id(2), prize_amount: 975 });
    assert!(game.prize_claimed);
    assert_eq!(game.total_pool, 1000);
    assert_eq!(game.status, GameStatus::Completed);
    assert!(game.is_valid());
}

#[test]
fn the_prize_is_claimed_once() {
    let mut game = settled_7_9_9_3();
    claim_prize(&mut game, id(2)).unwrap();
    let before = game.clone();
    assert_eq!(claim_prize(&mut game, id(2)).unwrap_err(), GameError::PrizeAlreadyClaimed);
    assert_eq!(game, before);
}

#[test]
fn only_the_winner_claims_and_only_of_a_completed_session() {
    let mut game = unsettled_7_9_9_3();
    let before = game.clone();
    assert_eq!(claim_prize(&mut game, id(2)).unwrap_err(), GameError::GameNotCompleted);
    assert_eq!(game, before);
    finalize_game(&mut game, 3000).unwrap();
    let before = game.clone();
    assert_eq!(claim_prize(&mut game, id(3)).unwrap_err(), GameError::NotWinner);
    assert_eq!(claim_prize(&mut game, id(9)).unwrap_err(), GameError::NotWinner);
    assert_eq!(game, before);
    claim_prize(&mut game, id(2)).unwrap();
    assert_eq!(claim_prize(&mut game, id(3)).unwrap_err(), GameError::NotWinner);
}

#[test]
fn the_dice_fee_is_two_and_a_half_percent() {
    assert_eq!(PLATFORM_FEE_BPS, 250);
    assert_eq!(dice_prize(1000), 975);
    assert_eq!(dice_prize(500), 488);
    assert_eq!(dice_prize(39), 39);
    assert_eq!(dice_prize(0), 0);
    assert_eq!(dice_prize(u64::MAX), u64::MAX - ((u64::MAX as u128) * 250 / 10_000) as u64);
}

#[test]
fn a_session_expires_after_an_hour() {
    assert_eq!(EXPIRY_SECONDS, 3600);
    assert!(!has_expired(1000, 4600, 3600));
    assert!(has_expired(1000, 4601, 3600));
    assert!(!has_expired(1000, 0, 3600));
    assert!(has_expired(i64::MIN, i64::MAX, 3600));
    assert!(!has_expired(i64::MAX, i64::MIN, 3600));
    assert!(has_expired(0, 0, -1));
}

#[test]
fn the_sole_participant_of_an_expired_session_gets_its_stake_back_once() {
    let mut game = new_game(250, 4);
    let refund = emergency_withdraw(&mut game, id(1), 1000 + 3600 + 1).unwrap();
    assert_eq!(refund, 250);
    assert_eq!(game.status, GameStatus::Cancelled);
    assert_eq!(game.total_pool, 0);
    assert_eq!(game.current_players, 0);
    assert!(game.players.is_empty());
    assert!(game.is_valid());
    let before = game.clone();
    assert_eq!(emergency_withdraw(&mut game, id(1), 1000 + 3600 + 2).unwrap_err(), GameError::GameStarted);
    assert_eq!(game, before);
}

#[test]
fn a_withdrawal_leaves_the_others_in_their_order() {
    let mut game = new_game(250, 6);
    join_game(&mut game, id(2), 1100).unwrap();
    join_game(&mut game, id(3), 1100).unwrap();
    assert_eq!(emergency_withdraw(&mut game, id(2), 5000).unwrap(), 250);
    assert_eq!(game.players, vec![id(1), id(3)]);
    assert_eq!(game.current_players, 2);
    assert_eq!(game.total_pool, 500);
    assert_eq!(game.status, GameStatus::Waiting);
    assert!(game.is_valid());
    assert_eq!(emergency_withdraw(&mut game, id(1), 5000).unwrap(), 250);
    assert_eq!(game.players, vec![id(3)]);
    assert_eq!(game.status, GameStatus::Waiting);
    assert_eq!(emergency_withdraw(&mut game, id(3), 5000).unwrap(), 250);
    assert_eq!(game.status, GameStatus::Cancelled);
    assert_eq!(game.total_pool, 0);
    assert_eq!(game.completed_at, None);
}

#[test]
fn no_withdrawal_before_the_expiry() {
    let mut game = new_game(250, 4);
    let before = game.clone();
    assert_eq!(emergency_withdraw(&mut game, id(1), 1000 + 3600).unwrap_err(), GameError::NotExpired);
    assert_eq!(emergency_withdraw(&mut game, id(1), 1000).unwrap_err(), GameError::NotExpired);
    assert_eq!(emergency_withdraw(&mut game, id(1), 0).unwrap_err(), GameError::NotExpired);
    assert_eq!(emergency_withdraw(&mut game, id(9), 1000).unwrap_err(), GameError::NotExpired);
    assert_eq!(game, before);
}

#[test]
fn no_withdrawal_by_a_stranger_or_from_a_started_session() {
    let mut game = new_game(250, 4);
    let before = game.clone();
    assert_eq!(emergency_withdraw(&mut game, id(9), 9000).unwrap_err(), GameError::PlayerNotInGame);
    assert_eq!(game, before);
    let mut game = playing(2);
    let before = game.clone();
    assert_eq!(emergency_withdraw(&mut game, id(1), 9000).unwrap_err(), GameError::GameStarted);
    assert_eq!(game, before);
}

#[test]
fn a_cancelled_session_takes_nothing() {
    let mut game = new_game(250, 4);
    emergency_withdraw(&mut game, id(1), 9000).unwrap();
    let before = game.clone();
    assert_eq!(join_game(&mut game, id(2), 9001).unwrap_err(), GameError::GameNotWaiting);
    assert_eq!(start_game(&mut game, id(1), 9001).unwrap_err(), GameError::GameNotWaiting);
    assert_eq!(roll_dice(&mut game, id(1), 9001).unwrap_err(), GameError::GameNotPlaying);
    assert_eq!(finalize_game(&mut game, 9001).unwrap_err(), GameError::GameNotPlaying);
    assert_eq!(claim_prize(&mut game, id(1)).unwrap_err(), GameError::GameNotCompleted);
    assert_eq!(game, before);
}

#[test]
fn a_stored_session_takes_453_bytes() {
    assert_eq!(GameAccount::space(), 453);
}

#[test]
fn every_rejection_says_why() {
    assert_eq!(GameError::InvalidMaxPlayers.message(), "Invalid max players (must be 2-6)");
    assert_eq!(GameError::InvalidEntryFee.message(), "Invalid entry fee");
    assert_eq!(GameError::GameFull.message(), "Game is full");
    assert_eq!(GameError::GameNotWaiting.message(), "Game is not waiting for players");
    assert_eq!(GameError::GameNotPlaying.message(), "Game is not in playing state");
    assert_eq!(GameError::AlreadyJoined.message(), "Player already joined this game");
    assert_eq!(GameError::PlayerNotInGame.message(), "Player not in this game");
    assert_eq!(GameError::AlreadyRolled.message(), "Player already rolled dice");
    assert_eq!(GameError::WaitingForRolls.message(), "Waiting for all players to roll");
    assert_eq!(GameError::NotEnoughPlayers.message(), "Not enough players to start");
    assert_eq!(GameError::NotCreator.message(), "Only creator can start the game");
    assert_eq!(GameError::GameStarted.message(), "Game already started");
    assert_eq!(GameError::NotExpired.message(), "Game not expired yet");
    assert_eq!(GameError::GameNotCompleted.message(), "Game is not completed");
    assert_eq!(GameError::NotWinner.message(), "You are not the winner");
    assert_eq!(GameError::PrizeAlreadyClaimed.message(), "Prize already claimed");
    assert_eq!(GameError::PoolOverflow.message(), "Pool cannot hold another stake");
}

#[test]
fn a_session_that_breaks_its_books_is_not_valid() {
    let good = playing(3);
    assert!(good.is_valid());
    let mut bad = good.clone();
    bad.total_pool += 1;
    assert!(!bad.is_valid());
    let mut bad = good.clone();
    bad.current_players = 2;
    assert!(!bad.is_valid());
    let mut bad = good.clone();
    bad.players[2] = id(1);
    assert!(!bad.is_valid());
    let mut bad = good.clone();
    bad.rolls.pop();
    assert!(!bad.is_valid());
    let mut bad = good.clone();
    bad.winner = Some(id(1));
    assert!(!bad.is_valid());
    let mut bad = good.clone();
    bad.started_at = None;
    assert!(!bad.is_valid());
    let mut bad = good.clone();
    bad.rolls[0] = Some(DiceRoll { dice1: 7, dice2: 1, total: 8, rolled_at: 0 });
    assert!(!bad.is_valid());
    let mut bad = good.clone();
    bad.rolls[0] = Some(DiceRoll { dice1: 3, dice2: 1, total: 5, rolled_at: 0 });
    assert!(!bad.is_valid());
    let mut bad = good.clone();
    bad.prize_claimed = true;
    assert!(!bad.is_valid());
    let mut bad = good;
    bad.max_players = 7;
    assert!(!bad.is_valid());
}
