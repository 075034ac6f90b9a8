//! Outcome resolution for dice sessions.
//!
//! A participant's outcome is two dice. Both are taken from the SHA-256
//! digest of a seed made of the time, the participant and the session, all of
//! them public: whoever knows the seed knows the dice beforehand. The outcome
//! is reproducible, not secret.

use crate::identity::Identity;
use vstd::prelude::*;

verus! {

/// One participant's recorded outcome.
#[derive(Clone, Copy, Debug, PartialEq, Eq, Structural)]
pub struct DiceRoll {
    pub dice1: u8,
    pub dice2: u8,
    pub total: u8,
    pub rolled_at: i64,
}

impl DiceRoll {
    /// Both dice show a face from 1 to 6, and the total is their sum.
    pub open spec fn wf(self) -> bool {
        &&& 1 <= self.dice1 <= 6
        &&& 1 <= self.dice2 <= 6
        &&& self.total == self.dice1 + self.dice2
    }
}

/// The SHA-256 digest of `data`.
pub uninterp spec fn sha256_digest(data: Seq<u8>) -> Seq<u8>;

/// Hashes `data` with `anchor_lang::solana_program::hash::hash` and returns
/// the bytes of the `Hash` it gives. That function feeds the one slice to a
/// fresh SHA-256 hasher and finalizes it, so the digest depends on `data`
/// alone; which bytes come out is not stated here, only that they are the
/// digest of these bytes.
#[verifier::external_body]
fn sha256(data: &[u8]) -> (digest: [u8; 32])
    ensures
        digest@ == sha256_digest(data@),
{
    anchor_lang::solana_program::hash::hash(data).to_bytes()
}

/// The seed of a roll: the time as eight little-endian bytes, the
/// participant's 32 bytes, the session id as eight little-endian bytes.
pub open spec fn roll_seed(now: i64, player: Identity, session_id: u64) -> Seq<u8> {
    vstd::bytes::spec_u64_to_le_bytes(now as u64) + player.bytes@ + vstd::bytes::spec_u64_to_le_bytes(
        session_id,
    )
}

/// Builds the seed of a roll.
pub fn build_seed(now: i64, player: &Identity, session_id: u64) -> (seed: Vec<u8>)
    ensures
        seed@ == roll_seed(now, *player, session_id),
{
    let mut seed = vstd::bytes::u64_to_le_bytes(now as u64);
    let mut i: usize = 0;
    while i < 32
        invariant
            0 <= i <= 32,
            seed@ == vstd::bytes::spec_u64_to_le_bytes(now as u64) + player.bytes@.subrange(0, i as int),
        decreases 32 - i,
    {
        seed.push(player.bytes[i]);
        i += 1;
    }
    assert(player.bytes@.subrange(0, 32) =~= player.bytes@);
    let id_bytes = vstd::bytes::u64_to_le_bytes(session_id);
    let mut j: usize = 0;
    while j < 8
        invariant
            0 <= j <= 8,
            id_bytes@.len() == 8,
            seed@ == vstd::bytes::spec_u64_to_le_bytes(now as u64) + player.bytes@ + id_bytes@.subrange(
                0,
                j as int,
            ),
        decreases 8 - j,
    {
        seed.push(id_bytes[j]);
        j += 1;
    }
    assert(id_bytes@.subrange(0, 8) =~= id_bytes@);
    seed
}

/// The face that a digest byte stands for: its remainder modulo 6, plus 1.
pub open spec fn die_face(byte: u8) -> u8 {
    (byte % 6 + 1) as u8
}

/// The outcome that `digest` stands for, stamped `now`: the first die from
/// its first byte, the second from its second byte.
pub open spec fn roll_of_digest(digest: Seq<u8>, now: i64) -> DiceRoll {
    DiceRoll {
        dice1: die_face(digest[0]),
        dice2: die_face(digest[1]),
        total: (die_face(digest[0]) + die_face(digest[1])) as u8,
        rolled_at: now,
    }
}

/// The outcome that the participant `player` of session `session_id` rolls
/// at `now`.
pub open spec fn roll_for(now: i64, player: Identity, session_id: u64) -> DiceRoll {
    roll_of_digest(sha256_digest(roll_seed(now, player, session_id)), now)
}

/// Reads the two dice out of a digest.
pub fn dice_from_digest(digest: &[u8; 32], now: i64) -> (roll: DiceRoll)
    ensures
        roll == roll_of_digest(digest@, now),
        roll.wf(),
        2 <= roll.total <= 12,
{
    let dice1: u8 = digest[0] % 6 + 1;
    let dice2: u8 = digest[1] % 6 + 1;
    DiceRoll { dice1, dice2, total: dice1 + dice2, rolled_at: now }
}

/// Hashes the seed of a roll into its digest.
pub fn seed_digest(now: i64, player: &Identity, session_id: u64) -> (digest: [u8; 32])
    ensures
        digest@ == sha256_digest(roll_seed(now, *player, session_id)),
{
    let seed = build_seed(now, player, session_id);
    sha256(seed.as_slice())
}

/// What a slot counts for when the winner is sought: its total, or nothing
/// where no outcome is recorded.
pub open spec fn slot_total(slot: Option<DiceRoll>) -> int {
    match slot {
        Some(roll) => roll.total as int,
        None => 0,
    }
}

/// The winning slot among the first `count`: the lowest index whose total is
/// the highest. A later slot with the same total does not displace it.
pub open spec fn winning_index(rolls: Seq<Option<DiceRoll>>, count: int) -> int
    decreases count,
{
    if count <= 1 {
        0
    } else {
        let before = winning_index(rolls, count - 1);
        if slot_total(rolls[count - 1]) > slot_total(rolls[before]) {
            count - 1
        } else {
            before
        }
    }
}

/// Whether every one of the first `count` slots holds an outcome.
pub open spec fn all_rolled(rolls: Seq<Option<DiceRoll>>, count: int) -> bool {
    forall|i: int| 0 <= i < count ==> (#[trigger] rolls[i]) is Some
}

/// The winning index is the first to reach the maximum: no slot beats it, and
/// every slot before it is strictly lower.
pub proof fn lemma_winning_index_is_first_max(rolls: Seq<Option<DiceRoll>>, count: int)
    requires
        1 <= count <= rolls.len(),
    ensures
        0 <= winning_index(rolls, count) < count,
        forall|i: int|
            0 <= i < count ==> slot_total(#[trigger] rolls[i]) <= slot_total(rolls[winning_index(rolls, count)]),
        forall|i: int|
            0 <= i < winning_index(rolls, count) ==> slot_total(#[trigger] rolls[i]) < slot_total(
                rolls[winning_index(rolls, count)],
            ),
    decreases count,
{
    if count > 1 {
        lemma_winning_index_is_first_max(rolls, count - 1);
    }
}

/// Only one index is the first to reach the maximum: whatever index no slot
/// beats and every earlier slot is below, is the winning index.
pub proof fn lemma_first_max_is_unique(rolls: Seq<Option<DiceRoll>>, count: int, index: int)
    requires
        1 <= count <= rolls.len(),
        0 <= index < count,
        forall|i: int| 0 <= i < count ==> slot_total(#[trigger] rolls[i]) <= slot_total(rolls[index]),
        forall|i: int| 0 <= i < index ==> slot_total(#[trigger] rolls[i]) < slot_total(rolls[index]),
    ensures
        index == winning_index(rolls, count),
{
    lemma_winning_index_is_first_max(rolls, count);
    let w = winning_index(rolls, count);
    if w < index {
        assert(slot_total(rolls[w]) < slot_total(rolls[index]));
        assert(slot_total(rolls[index]) <= slot_total(rolls[w]));
    } else if index < w {
        assert(slot_total(rolls[index]) < slot_total(rolls[w]));
        assert(slot_total(rolls[w]) <= slot_total(rolls[index]));
    }
}

/// Scans the first `count` slots and returns the winning index with its
/// total. The scan keeps the highest total seen so far and the first index
/// that reached it.
pub fn determine_winner(rolls: &Vec<Option<DiceRoll>>, count: usize) -> (winner: (usize, u8))
    requires
        count <= rolls@.len(),
    ensures
        winner.0 == winning_index(rolls@, count as int),
        count >= 1 ==> winner.1 == slot_total(rolls@[winner.0 as int]),
        count == 0 ==> winner.1 == 0,
{
    let mut winner_index: usize = 0;
    let mut highest: u8 = 0;
    let mut i: usize = 0;
    while i < count
        invariant
            0 <= i <= count <= rolls@.len(),
            winner_index == winning_index(rolls@, i as int),
            i == 0 ==> highest == 0,
            i >= 1 ==> winner_index < i && highest == slot_total(rolls@[winner_index as int]),
        decreases count - i,
    {
        match rolls[i] {
            Some(roll) => {
                if roll.total > highest {
                    highest = roll.total;
                    winner_index = i;
                }
            },
            None => {},
        }
        i += 1;
    }
    (winner_index, highest)
}

/// Whether every one of the first `count` slots holds an outcome.
pub fn has_all_rolled(rolls: &Vec<Option<DiceRoll>>, count: usize) -> (complete: bool)
    requires
        count <= rolls@.len(),
    ensures
        complete == all_rolled(rolls@, count as int),
{
    let mut i: usize = 0;
    while i < count
        invariant
            0 <= i <= count <= rolls@.len(),
            all_rolled(rolls@, i as int),
        decreases count - i,
    {
        if rolls[i].is_none() {
            return false;
        }
        i += 1;
    }
    true
}

} // verus!
