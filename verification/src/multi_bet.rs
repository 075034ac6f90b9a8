//! The arbitrated bet among several parties.
//!
//! Its creator is its first participant, and others join while it waits, up
//! to the number that it was created for. Each participant has a deposit
//! mark beside it, which no operation sets yet: the bet collects
//! participants, not funds.

use crate::bet_state::{BetStatus, BetType, BettingError};
use crate::identity::{all_distinct, has_no_duplicates, is_member, position, Identity};
use vstd::prelude::*;

verus! {

/// One bet among several parties. Mark `i` of `deposits` belongs to
/// `participants[i]`.
#[derive(Clone, Debug, PartialEq, Eq)]
pub struct MultiPartyBetAccount {
    pub bet_id: u64,
    pub creator: Identity,
    pub arbiter: Identity,
    pub entry_fee: u64,
    pub participants: Vec<Identity>,
    pub deposits: Vec<bool>,
    pub max_participants: u8,
    pub total_pool: u64,
    pub created_at: i64,
    pub bet_start_time: Option<i64>,
    pub completed_at: Option<i64>,
    pub minimum_decision_time: i64,
    pub status: BetStatus,
    pub winner: Option<Identity>,
    pub bet_type: BetType,
}

/// A bet among several parties as a mathematical value.
pub struct MultiPartyBetState {
    pub bet_id: u64,
    pub creator: Identity,
    pub arbiter: Identity,
    pub entry_fee: u64,
    pub participants: Seq<Identity>,
    pub deposits: Seq<bool>,
    pub max_participants: u8,
    pub total_pool: u64,
    pub created_at: i64,
    pub bet_start_time: Option<i64>,
    pub completed_at: Option<i64>,
    pub minimum_decision_time: i64,
    pub status: BetStatus,
    pub winner: Option<Identity>,
    pub bet_type: BetType,
}

impl View for MultiPartyBetAccount {
    type V = MultiPartyBetState;

    open spec fn view(&self) -> MultiPartyBetState {
        MultiPartyBetState {
            bet_id: self.bet_id,
            creator: self.creator,
            arbiter: self.arbiter,
            entry_fee: self.entry_fee,
            participants: self.participants@,
            deposits: self.deposits@,
            max_participants: self.max_participants,
            total_pool: self.total_pool,
            created_at: self.created_at,
            bet_start_time: self.bet_start_time,
            completed_at: self.completed_at,
            minimum_decision_time: self.minimum_decision_time,
            status: self.status,
            winner: self.winner,
            bet_type: self.bet_type,
        }
    }
}

/// How many of `deposits` are marked as made.
pub open spec fn deposits_confirmed(deposits: Seq<bool>) -> int
    decreases deposits.len(),
{
    if deposits.len() == 0 {
        0
    } else {
        deposits_confirmed(deposits.drop_last()) + if deposits.last() {
            1int
        } else {
            0int
        }
    }
}

impl MultiPartyBetState {
    /// What holds of every bet among several parties at all times.
    pub open spec fn wf(self) -> bool {
        &&& self.bet_type == BetType::MultiParty
        // There is one mark for each participant. The creator is always in,
        // and nobody else gets in beyond the maximum.
        &&& self.participants.len() == self.deposits.len()
        &&& 1 <= self.participants.len()
        &&& self.participants.len() <= self.max_participants || self.participants.len() == 1
        &&& all_distinct(self.participants)
        // The pool is one stake for each deposit marked.
        &&& self.total_pool == self.entry_fee * deposits_confirmed(self.deposits)
        // There is no winner until the bet is completed, and the winner is
        // a participant.
        &&& match self.winner {
            Some(w) => self.status == BetStatus::Completed && is_member(self.participants, w),
            None => true,
        }
    }

    /// The bet that `creator` creates at `now`: it waits, the creator is its
    /// one participant, no deposit is marked and the pool is empty.
    pub open spec fn created(
        bet_id: u64,
        creator: Identity,
        arbiter: Identity,
        entry_fee: u64,
        minimum_decision_time: i64,
        max_participants: u8,
        now: i64,
    ) -> MultiPartyBetState {
        MultiPartyBetState {
            bet_id,
            creator,
            arbiter,
            entry_fee,
            participants: seq![creator],
            deposits: seq![false],
            max_participants,
            total_pool: 0,
            created_at: now,
            bet_start_time: None,
            completed_at: None,
            minimum_decision_time,
            status: BetStatus::WaitingForDeposits,
            winner: None,
            bet_type: BetType::MultiParty,
        }
    }

    /// Why `participant` cannot join, if it cannot.
    pub open spec fn join_rejection(self, participant: Identity) -> Option<BettingError> {
        if self.status != BetStatus::WaitingForDeposits {
            Some(BettingError::InvalidBetStatus)
        } else if self.participants.len() >= self.max_participants {
            Some(BettingError::MaxParticipantsReached)
        } else if is_member(self.participants, participant) {
            Some(BettingError::AlreadyJoined)
        } else {
            None
        }
    }

    /// The bet after `participant` joined: one more participant, with no
    /// deposit marked for it yet.
    pub open spec fn after_join(self, participant: Identity) -> MultiPartyBetState {
        MultiPartyBetState {
            participants: self.participants.push(participant),
            deposits: self.deposits.push(false),
            ..self
        }
    }
}

impl MultiPartyBetAccount {
    /// What holds of every bet among several parties at all times.
    pub open spec fn wf(&self) -> bool {
        self@.wf()
    }
}

/// A new mark that no deposit was made leaves the number of confirmed
/// deposits as it was.
pub proof fn lemma_unmarked_adds_nothing(deposits: Seq<bool>)
    ensures
        deposits_confirmed(deposits.push(false)) == deposits_confirmed(deposits),
{
    assert(deposits.push(false).drop_last() =~= deposits);
}

/// A join leaves a valid bet valid, with one more participant and the pool
/// untouched.
pub proof fn lemma_join_keeps_valid(s: MultiPartyBetState, participant: Identity)
    requires
        s.wf(),
        s.join_rejection(participant) is None,
    ensures
        s.after_join(participant).wf(),
        s.after_join(participant).participants.len() == s.participants.len() + 1,
        s.after_join(participant).total_pool == s.total_pool,
{
    lemma_unmarked_adds_nothing(s.deposits);
    let t = s.after_join(participant);
    assert(all_distinct(t.participants));
    if let Some(w) = s.winner {
        let k = choose|k: int| 0 <= k < s.participants.len() && s.participants[k] == w;
        assert(t.participants[k] == w);
    }
}

/// Creates a bet among up to `max_participants` parties at a stake of
/// `entry_fee` each, to be decided by `arbiter`. The creator is its first
/// participant.
pub fn create_multi_party_bet(
    bet_id: u64,
    creator: Identity,
    arbiter: Identity,
    entry_fee: u64,
    minimum_decision_time: i64,
    max_participants: u8,
    now: i64,
) -> (bet: MultiPartyBetAccount)
    ensures
        bet@ == MultiPartyBetState::created(
            bet_id,
            creator,
            arbiter,
            entry_fee,
            minimum_decision_time,
            max_participants,
            now,
        ),
        bet.wf(),
{
    let mut participants: Vec<Identity> = Vec::new();
    participants.push(creator);
    let mut deposits: Vec<bool> = Vec::new();
    deposits.push(false);
    let bet = MultiPartyBetAccount {
        bet_id,
        creator,
        arbiter,
        entry_fee,
        participants,
        deposits,
        max_participants,
        total_pool: 0,
        created_at: now,
        bet_start_time: None,
        completed_at: None,
        minimum_decision_time,
        status: BetStatus::WaitingForDeposits,
        winner: None,
        bet_type: BetType::MultiParty,
    };
    proof {
        let made = MultiPartyBetState::created(
            bet_id,
            creator,
            arbiter,
            entry_fee,
            minimum_decision_time,
            max_participants,
            now,
        );
        assert(bet@.participants =~= made.participants);
        assert(bet@.deposits =~= made.deposits);
        lemma_unmarked_adds_nothing(Seq::<bool>::empty());
        assert(Seq::<bool>::empty().push(false) =~= seq![false]);
        assert(entry_fee * deposits_confirmed(seq![false]) == 0) by (nonlinear_arith)
            requires
                deposits_confirmed(seq![false]) == 0,
        ;
    }
    bet
}

/// Adds `participant` to a waiting bet that has room for one more.
pub fn join_multi_party_bet(bet: &mut MultiPartyBetAccount, participant: Identity) -> (r: Result<(), BettingError>)
    requires
        old(bet).wf(),
    ensures
        final(bet).wf(),
        match r {
            Ok(_) => {
                &&& old(bet)@.join_rejection(participant) is None
                &&& final(bet)@ == old(bet)@.after_join(participant)
            },
            Err(e) => old(bet)@.join_rejection(participant) == Some(e) && *final(bet) == *old(bet),
        },
{
    if bet.status != BetStatus::WaitingForDeposits {
        return Err(BettingError::InvalidBetStatus);
    }
    if bet.participants.len() >= bet.max_participants as usize {
        return Err(BettingError::MaxParticipantsReached);
    }
    if position(&bet.participants, &participant).is_some() {
        return Err(BettingError::AlreadyJoined);
    }
    proof {
        lemma_join_keeps_valid(bet@, participant);
    }
    bet.participants.push(participant);
    bet.deposits.push(false);
    proof {
        let after = old(bet)@.after_join(participant);
        assert(bet@.participants =~= after.participants);
        assert(bet@.deposits =~= after.deposits);
        assert(bet@ == after);
    }
    Ok(())
}

/// Counts the deposits that are marked as made.
pub fn count_confirmed(deposits: &Vec<bool>) -> (count: usize)
    ensures
        count == deposits_confirmed(deposits@),
        count <= deposits@.len(),
{
    let mut count: usize = 0;
    let mut i: usize = 0;
    while i < deposits.len()
        invariant
            0 <= i <= deposits@.len(),
            count == deposits_confirmed(deposits@.subrange(0, i as int)),
            count <= i,
        decreases deposits@.len() - i,
    {
        proof {
            assert(deposits@.subrange(0, i + 1).drop_last() =~= deposits@.subrange(0, i as int));
        }
        if deposits[i] {
            count += 1;
        }
        i += 1;
    }
    assert(deposits@.subrange(0, deposits@.len() as int) =~= deposits@);
    count
}

impl MultiPartyBetAccount {
    /// Whether the bet is valid. A host that holds a bet which it did not
    /// get from these operations tests it with this before it hands it to
    /// one of them.
    pub fn is_valid(&self) -> (valid: bool)
        ensures
            valid == self.wf(),
    {
        if self.bet_type != BetType::MultiParty {
            return false;
        }
        let count = self.participants.len();
        if count != self.deposits.len() || count < 1 {
            return false;
        }
        if count > self.max_participants as usize && count != 1 {
            return false;
        }
        if !has_no_duplicates(&self.participants) {
            return false;
        }
        let confirmed = count_confirmed(&self.deposits);
        assert(0 <= self.entry_fee as int * confirmed as int <= 0xffff_ffff_ffff_ffff * 255) by (nonlinear_arith)
            requires
                0 <= self.entry_fee as int <= 0xffff_ffff_ffff_ffff,
                0 <= confirmed as int <= 255,
        ;
        if self.total_pool as u128 != (self.entry_fee as u128) * (confirmed as u128) {
            return false;
        }
        match self.winner {
            Some(w) => self.status == BetStatus::Completed && position(&self.participants, &w).is_some(),
            None => true,
        }
    }
}

} // verus!
