//! Typed shapes of the records synchronized from a chain to the external
//! sink, and of the query responses they are parsed from.

pub mod game_count;
pub mod leaderboard;
pub mod match_history;
pub mod participants;
pub mod tournament;

pub use game_count::{CountData, CountResponse, GameCount};
pub use leaderboard::{LeaderBoardResponse, Leaderboard, LeaderboardData};
pub use match_history::{MatchHistory, MatchHistoryDB, MatchHistoryResponse};
