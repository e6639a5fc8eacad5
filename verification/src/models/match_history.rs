//! The last-match record and its flattened sink row.

use crate::text::opt_string_eq;
use vstd::prelude::*;

verus! {

/// One player of a match: id and optional display name.
#[derive(Clone, Debug)]
pub struct Player {
    pub id: String,
    pub name: Option<String>,
}

/// Mathematical content of a [`Player`].
#[verifier::ext_equal]
pub ghost struct PlayerView {
    pub id: Seq<char>,
    pub name: Option<Seq<char>>,
}

impl DeepView for Player {
    type V = PlayerView;

    open spec fn deep_view(&self) -> PlayerView {
        PlayerView { id: self.id@, name: self.name.deep_view() }
    }
}

impl Player {
    /// Content equality of two players, stated over their abstract views.
    pub fn content_eq(&self, other: &Player) -> (r: bool)
        ensures
            r == (self.deep_view() == other.deep_view()),
    {
        let r = self.id == other.id && opt_string_eq(&self.name, &other.name);
        proof {
            if r {
                assert(self.deep_view() =~= other.deep_view());
            }
        }
        r
    }
}

/// The most recent match reported by a chain.
#[derive(Clone, Debug)]
pub struct MatchHistory {
    pub you: Player,
    pub opponent: Player,
    pub blob_hash: String,
}

/// Mathematical content of a [`MatchHistory`].
#[verifier::ext_equal]
pub ghost struct MatchHistoryView {
    pub you: PlayerView,
    pub opponent: PlayerView,
    pub blob_hash: Seq<char>,
}

impl DeepView for MatchHistory {
    type V = MatchHistoryView;

    open spec fn deep_view(&self) -> MatchHistoryView {
        MatchHistoryView {
            you: self.you.deep_view(),
            opponent: self.opponent.deep_view(),
            blob_hash: self.blob_hash@,
        }
    }
}

/// Response shape of the last-match query.
#[derive(Debug)]
pub struct MatchHistoryResponse {
    pub data: MatchHistoryLast,
}

/// Payload of [`MatchHistoryResponse`]; the chain may have no match yet.
#[derive(Debug)]
pub struct MatchHistoryLast {
    pub match_history_last: Option<MatchHistory>,
}

/// The flattened row written to the sink's match table.
#[derive(Debug)]
pub struct MatchHistoryDB {
    pub player_1_id: String,
    pub player_1_name: Option<String>,
    pub player_2_id: String,
    pub player_2_name: Option<String>,
    pub blob_hash: String,
}

impl MatchHistory {
    /// Content equality of two matches, stated over their abstract views.
    pub fn content_eq(&self, other: &MatchHistory) -> (r: bool)
        ensures
            r == (self.deep_view() == other.deep_view()),
    {
        let r = self.you.content_eq(&other.you) && self.opponent.content_eq(&other.opponent)
            && self.blob_hash == other.blob_hash;
        proof {
            if r {
                assert(self.deep_view() =~= other.deep_view());
            }
        }
        r
    }

    /// Flattens the match into the sink row: both players side by side,
    /// every field carried over unchanged.
    pub fn for_db(&self) -> (r: MatchHistoryDB)
        ensures
            r.player_1_id@ == self.you.id@,
            r.player_1_name.deep_view() == self.you.name.deep_view(),
            r.player_2_id@ == self.opponent.id@,
            r.player_2_name.deep_view() == self.opponent.name.deep_view(),
            r.blob_hash@ == self.blob_hash@,
    {
        MatchHistoryDB {
            player_1_id: self.you.id.clone(),
            player_1_name: clone_opt_string(&self.you.name),
            player_2_id: self.opponent.id.clone(),
            player_2_name: clone_opt_string(&self.opponent.name),
            blob_hash: self.blob_hash.clone(),
        }
    }
}

/// Clones an optional string, preserving its content.
pub fn clone_opt_string(a: &Option<String>) -> (r: Option<String>)
    ensures
        r.deep_view() == a.deep_view(),
{
    match a {
        Some(x) => Some(x.clone()),
        None => None,
    }
}

impl MatchHistoryDB {
    /// Name of the sink table holding matches.
    pub fn table_name() -> (r: &'static str)
        ensures
            r@ == "matchHistory"@,
    {
        "matchHistory"
    }

    /// Primary-key column of the match table.
    pub fn primary_key() -> (r: &'static str)
        ensures
            r@ == "id"@,
    {
        "id"
    }
}

} // verus!
