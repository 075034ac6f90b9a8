//! Pooled-stake wagering settlement engine.
//!
//! Independent parties lock stakes into an escrow tied to an outcome: a dice
//! roll or an arbiter's ruling. The engine decides who may do what in which
//! state, names the winner, takes the fees and says which amounts are to be
//! moved. It moves no funds itself and reads no clock: the host hands in the
//! caller's identity and the time, and carries out the transfers that the
//! operations return.

pub mod bet_laws;
pub mod bet_state;
pub mod betting;
pub mod fees;
pub mod game;
pub mod game_laws;
pub mod game_state;
pub mod identity;
pub mod multi_bet;
pub mod outcome;
pub mod time;
