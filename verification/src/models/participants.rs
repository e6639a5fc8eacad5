//! Bracket participant lists as carried inside encoded chain blobs.
//!
//! The encoded form travels through an external codec at the edge of the
//! system; here the decoded shapes are modeled with plain identifiers.

use vstd::prelude::*;

verus! {

/// One player of a Swiss bracket; the score starts at zero.
#[derive(Clone, Debug)]
pub struct SwissPlayer {
    pub player_id: String,
    pub score: u8,
    pub opponents: Vec<String>,
}

/// One player of a single-elimination bracket; the score starts at zero.
#[derive(Clone, Debug)]
pub struct SingleElimPlayer {
    pub player_id: String,
    pub score: u8,
    pub opponents: Vec<String>,
}

/// Participants of a Swiss bracket, capped at `max_players`.
#[derive(Clone, Debug)]
pub struct SwissParticipants {
    pub players: Vec<SwissPlayer>,
    pub max_players: usize,
}

/// Participants of a single-elimination bracket, capped at `max_players`.
#[derive(Clone, Debug)]
pub struct SingleElimParticipants {
    pub players: Vec<SingleElimPlayer>,
    pub max_players: usize,
}

/// A decoded participant list, tagged by bracket format.
#[derive(Clone, Debug)]
pub enum Participants {
    Swiss(SwissParticipants),
    SingleElim(SingleElimParticipants),
}

/// Marker for the player shapes a bracket may carry.
pub trait TournamentParticipants {
}

impl TournamentParticipants for SwissPlayer {
}

impl TournamentParticipants for SingleElimPlayer {
}

} // verus!
