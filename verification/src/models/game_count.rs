//! The game-count record: a single-row counter synchronized to the sink.

use crate::text::{dec_digits, u64_to_dec};
use vstd::prelude::*;

verus! {

/// Response shape of the count query: `{ "data": { "count": N } }`.
#[derive(Debug)]
pub struct CountResponse {
    pub data: CountData,
}

/// Payload of [`CountResponse`].
#[derive(Debug)]
pub struct CountData {
    pub count: u64,
}

/// The single row of the external count table. The sink stores the counter
/// value as text under a fixed primary key.
#[derive(Clone, Debug)]
pub struct GameCount {
    pub id: String,
    pub count: String,
}

/// Mathematical content of a [`GameCount`] row.
#[verifier::ext_equal]
pub ghost struct GameCountView {
    pub id: Seq<char>,
    pub count: Seq<char>,
}

impl DeepView for GameCount {
    type V = GameCountView;

    open spec fn deep_view(&self) -> GameCountView {
        GameCountView { id: self.id@, count: self.count@ }
    }
}

impl GameCount {
    /// The one row the counter occupies: a fixed key and the decimal
    /// rendering of the fetched count.
    pub fn singleton(count: u64) -> (r: GameCount)
        ensures
            r.id@ == "singleton"@,
            r.count@ == dec_digits(count as nat),
    {
        GameCount { id: "singleton".to_owned(), count: u64_to_dec(count) }
    }

    /// Name of the sink table holding the counter.
    pub fn table_name() -> (r: &'static str)
        ensures
            r@ == "gameCount"@,
    {
        "gameCount"
    }

    /// Primary-key column of the counter table.
    pub fn primary_key() -> (r: &'static str)
        ensures
            r@ == "id"@,
    {
        "id"
    }
}

} // verus!
