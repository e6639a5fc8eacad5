//! The sync pipeline: on each notification, the fetched battery of records
//! is diffed against the cache, and only the records that are new or changed
//! are written to the sink.
//!
//! A query or parse failure of one record kind never aborts the others: the
//! kind is skipped for the cycle and reported, and the cache stays put, so
//! the next notification retries naturally.

use crate::cache::{
    count_is_stale, leaderboard_is_stale, matches_is_stale, participant_is_stale,
    tournament_is_stale, CachedState,
};
use crate::models::leaderboard::{lb_content_equal, Leaderboard};
use crate::models::match_history::MatchHistory;
use crate::models::tournament::{Tournament, TournamentParticipant, QUERY_TOURNAMENTS};
use crate::supabase::SinkWrite;
use vstd::prelude::*;

verus! {

/// Subscription request issued once when a worker starts, so the remote side
/// begins emitting notifications.
pub const SUB_QUERY: &'static str = r#"{ "query": "mutation { subscribe }" }"#;

/// Query text fetching the leaderboard rows.
pub const QUERY_LEADERBOARD: &'static str = r#"{ "query": "query { leaderboard { elo id name matches won lost } }" }"#;

/// Query text fetching the game count.
pub const QUERY_COUNT: &'static str = r#"{ "query": "query { count }" }"#;

/// Query text fetching the most recent match.
pub const QUERY_MATCHES: &'static str = r#"{ "query": "query { matchHistoryLast { you { id name } opponent { id name } blobHash } }" }"#;

/// Query text fetching the identities of discovered tournament chains.
pub const QUERY_TOURNAMENT_CHAINS: &'static str = r#"{ "query": "query { tournamentChains }" }"#;

/// One record kind of the fixed battery a cycle synchronizes.
#[derive(Clone, Copy, Debug, PartialEq, Eq, Structural)]
pub enum RecordKind {
    Count,
    Leaderboard,
    Matches,
    Tournaments,
    Participants,
}

/// How a record kind is diffed against the cache.
#[derive(Clone, Copy, Debug, PartialEq, Eq, Structural)]
pub enum DiffStrategy {
    /// Equality of one scalar value.
    Scalar,
    /// Whole-collection content equality, keyed, order-insensitive; a change
    /// replaces the collection in the sink as a whole.
    Collection,
    /// Per-key comparison; only changed or new keys are written, absent keys
    /// are never deleted.
    KeyedMap,
}

/// The diff strategy of each record kind.
pub fn diff_strategy(kind: RecordKind) -> (r: DiffStrategy)
    ensures
        kind == RecordKind::Count ==> r == DiffStrategy::Scalar,
        kind == RecordKind::Leaderboard ==> r == DiffStrategy::Collection,
        kind == RecordKind::Matches ==> r == DiffStrategy::Scalar,
        kind == RecordKind::Tournaments ==> r == DiffStrategy::KeyedMap,
        kind == RecordKind::Participants ==> r == DiffStrategy::KeyedMap,
{
    match kind {
        RecordKind::Count => DiffStrategy::Scalar,
        RecordKind::Leaderboard => DiffStrategy::Collection,
        RecordKind::Matches => DiffStrategy::Scalar,
        RecordKind::Tournaments => DiffStrategy::KeyedMap,
        RecordKind::Participants => DiffStrategy::KeyedMap,
    }
}

/// The write operation each record kind sends to the sink. The leaderboard's
/// insert is the second half of its replace-all; the last match only ever
/// appends.
pub fn sink_write_of(kind: RecordKind) -> (r: SinkWrite)
    ensures
        kind == RecordKind::Count ==> r == SinkWrite::Upsert,
        kind == RecordKind::Leaderboard ==> r == SinkWrite::Insert,
        kind == RecordKind::Matches ==> r == SinkWrite::Insert,
        kind == RecordKind::Tournaments ==> r == SinkWrite::Upsert,
        kind == RecordKind::Participants ==> r == SinkWrite::Upsert,
{
    match kind {
        RecordKind::Count => SinkWrite::Upsert,
        RecordKind::Leaderboard => SinkWrite::Insert,
        RecordKind::Matches => SinkWrite::Insert,
        RecordKind::Tournaments => SinkWrite::Upsert,
        RecordKind::Participants => SinkWrite::Upsert,
    }
}

/// The fixed query text of a record kind's fetch; the participants query is
/// built per tournament instead, by
/// [`crate::models::tournament::participants_query`].
pub fn query_text(kind: RecordKind) -> (r: Option<&'static str>)
    ensures
        kind == RecordKind::Count ==> r == Some(QUERY_COUNT),
        kind == RecordKind::Leaderboard ==> r == Some(QUERY_LEADERBOARD),
        kind == RecordKind::Matches ==> r == Some(QUERY_MATCHES),
        kind == RecordKind::Tournaments ==> r == Some(QUERY_TOURNAMENTS),
        kind == RecordKind::Participants ==> r == None::<&'static str>,
{
    match kind {
        RecordKind::Count => Some(QUERY_COUNT),
        RecordKind::Leaderboard => Some(QUERY_LEADERBOARD),
        RecordKind::Matches => Some(QUERY_MATCHES),
        RecordKind::Tournaments => Some(QUERY_TOURNAMENTS),
        RecordKind::Participants => None,
    }
}

/// Whether the fetched count must be written to the sink.
pub fn count_needs_write(c: &CachedState, n: u64) -> (r: bool)
    ensures
        r == count_is_stale(*c, n),
{
    match c.count {
        Some(m) => m != n,
        None => true,
    }
}

/// Whether the fetched leaderboard must replace the one in the sink. The
/// comparison is by content, key by key: a reordering of the fetched rows is
/// not a change.
pub fn leaderboard_needs_write(c: &CachedState, rows: &Vec<Leaderboard>) -> (r: bool)
    ensures
        r == leaderboard_is_stale(*c, rows.deep_view()),
{
    match &c.leaderboard {
        Some(cached) => !lb_content_equal(cached, rows),
        None => true,
    }
}

/// Whether the fetched last match must be written to the sink.
pub fn match_needs_write(c: &CachedState, m: &MatchHistory) -> (r: bool)
    ensures
        r == matches_is_stale(*c, m.deep_view()),
{
    match &c.matches {
        Some(cached) => !cached.content_eq(m),
        None => true,
    }
}

/// Whether the fetched tournament is new or changed and must be upserted.
pub fn tournament_needs_write(c: &CachedState, t: &Tournament) -> (r: bool)
    ensures
        r == tournament_is_stale(*c, t.deep_view()),
{
    match c.tournaments.get(&t.tournament_id) {
        Some(cached) => !cached.content_eq(t),
        None => true,
    }
}

/// Whether the fetched participant of the given tournament is new or changed
/// and must be upserted.
pub fn participant_needs_write(
    c: &CachedState,
    tournament_id: &String,
    p: &TournamentParticipant,
) -> (r: bool)
    ensures
        r == participant_is_stale(*c, tournament_id@, p.deep_view()),
{
    match c.participants.get(tournament_id) {
        Some(inner) => match inner.get(&p.id) {
            Some(cached) => !cached.content_eq(p),
            None => true,
        },
        None => true,
    }
}

/// The positions of the fetched tournaments that must be written: exactly
/// the new or changed ones, in fetch order.
pub fn stale_tournament_indices(c: &CachedState, fetched: &Vec<Tournament>) -> (r: Vec<usize>)
    ensures
        forall|j: int| 0 <= j < r@.len() ==> r@[j] < fetched@.len(),
        forall|j1: int, j2: int| 0 <= j1 < j2 < r@.len() ==> r@[j1] < r@[j2],
        forall|i: int|
            0 <= i < fetched@.len() ==> (tournament_is_stale(*c, fetched@[i].deep_view())
                <==> r@.contains(i as usize)),
{
    let mut r: Vec<usize> = Vec::new();
    let n = fetched.len();
    let mut i: usize = 0;
    while i < n
        invariant
            n == fetched@.len(),
            i <= n,
            forall|j: int| 0 <= j < r@.len() ==> r@[j] < i,
            forall|j1: int, j2: int| 0 <= j1 < j2 < r@.len() ==> r@[j1] < r@[j2],
            forall|t: int|
                0 <= t < i ==> (tournament_is_stale(*c, fetched@[t].deep_view()) <==> r@.contains(
                    t as usize,
                )),
        decreases n - i,
    {
        let ghost r0 = r@;
        if tournament_needs_write(c, &fetched[i]) {
            r.push(i);
            proof {
                assert(r@[r@.len() - 1] == i);
                assert(r@.contains(i));
                assert forall|t: int|
                    0 <= t < i + 1 implies (tournament_is_stale(*c, fetched@[t].deep_view())
                    <==> r@.contains(t as usize)) by {
                    if t < i {
                        assert(forall|j: int| 0 <= j < r0.len() ==> r@[j] == r0[j]);
                        if r0.contains(t as usize) {
                            let w = choose|w: int| 0 <= w < r0.len() && r0[w] == t as usize;
                            assert(r@[w] == t as usize);
                            assert(r@.contains(t as usize));
                        }
                        if r@.contains(t as usize) {
                            let w = choose|w: int| 0 <= w < r@.len() && r@[w] == t as usize;
                            assert(w < r0.len());
                            assert(r0.contains(t as usize));
                        }
                    }
                }
            }
        } else {
            proof {
                assert forall|t: int|
                    0 <= t < i + 1 implies (tournament_is_stale(*c, fetched@[t].deep_view())
                    <==> r@.contains(t as usize)) by {
                    if t == i {
                        if r@.contains(i) {
                            let w = choose|w: int| 0 <= w < r@.len() && r@[w] == i;
                            assert(r@[w] < i);
                            assert(false);
                        }
                    }
                }
            }
        }
        i += 1;
    }
    r
}

/// The positions of the fetched participants of one tournament that must be
/// written: exactly the new or changed ones, in fetch order.
pub fn stale_participant_indices(
    c: &CachedState,
    tournament_id: &String,
    fetched: &Vec<TournamentParticipant>,
) -> (r: Vec<usize>)
    ensures
        forall|j: int| 0 <= j < r@.len() ==> r@[j] < fetched@.len(),
        forall|j1: int, j2: int| 0 <= j1 < j2 < r@.len() ==> r@[j1] < r@[j2],
        forall|i: int|
            0 <= i < fetched@.len() ==> (participant_is_stale(
                *c,
                tournament_id@,
                fetched@[i].deep_view(),
            ) <==> r@.contains(i as usize)),
{
    let mut r: Vec<usize> = Vec::new();
    let n = fetched.len();
    let mut i: usize = 0;
    while i < n
        invariant
            n == fetched@.len(),
            i <= n,
            forall|j: int| 0 <= j < r@.len() ==> r@[j] < i,
            forall|j1: int, j2: int| 0 <= j1 < j2 < r@.len() ==> r@[j1] < r@[j2],
            forall|t: int|
                0 <= t < i ==> (participant_is_stale(*c, tournament_id@, fetched@[t].deep_view())
                    <==> r@.contains(t as usize)),
        decreases n - i,
    {
        let ghost r0 = r@;
        if participant_needs_write(c, tournament_id, &fetched[i]) {
            r.push(i);
            proof {
                assert(r@[r@.len() - 1] == i);
                assert(r@.contains(i));
                assert forall|t: int|
                    0 <= t < i + 1 implies (participant_is_stale(
                    *c,
                    tournament_id@,
                    fetched@[t].deep_view(),
                ) <==> r@.contains(t as usize)) by {
                    if t < i {
                        assert(forall|j: int| 0 <= j < r0.len() ==> r@[j] == r0[j]);
                        if r0.contains(t as usize) {
                            let w = choose|w: int| 0 <= w < r0.len() && r0[w] == t as usize;
                            assert(r@[w] == t as usize);
                            assert(r@.contains(t as usize));
                        }
                        if r@.contains(t as usize) {
                            let w = choose|w: int| 0 <= w < r@.len() && r@[w] == t as usize;
                            assert(w < r0.len());
                            assert(r0.contains(t as usize));
                        }
                    }
                }
            }
        } else {
            proof {
                assert forall|t: int|
                    0 <= t < i + 1 implies (participant_is_stale(
                    *c,
                    tournament_id@,
                    fetched@[t].deep_view(),
                ) <==> r@.contains(t as usize)) by {
                    if t == i {
                        if r@.contains(i) {
                            let w = choose|w: int| 0 <= w < r@.len() && r@[w] == i;
                            assert(r@[w] < i);
                            assert(false);
                        }
                    }
                }
            }
        }
        i += 1;
    }
    r
}

/// What one cycle fetched for the fixed battery of top-level record kinds.
/// `None` stands for a failed query or parse of that kind, or, for the last
/// match, also for a chain with no match yet; the kind is then skipped.
pub struct FetchBatch {
    pub count: Option<u64>,
    pub leaderboard: Option<Vec<Leaderboard>>,
    pub matches: Option<MatchHistory>,
    pub tournaments: Option<Vec<Tournament>>,
}

/// The writes one cycle owes the sink for the top-level record kinds.
/// Participants are planned per tournament, after each tournament's own
/// participants query, with [`stale_participant_indices`].
pub struct CyclePlan {
    pub write_count: Option<u64>,
    pub write_leaderboard: bool,
    pub write_matches: bool,
    pub tournament_indices: Vec<usize>,
}

/// Diffs everything one cycle fetched against the cache. Each fetched kind
/// is planned for writing exactly when its content disagrees with the cache;
/// a kind that failed to fetch is never written. No kind's outcome influences
/// another's.
pub fn plan_cycle(c: &CachedState, batch: &FetchBatch) -> (plan: CyclePlan)
    ensures
        plan.write_count == match batch.count {
            Some(n) => if count_is_stale(*c, n) {
                Some(n)
            } else {
                None
            },
            None => None::<u64>,
        },
        plan.write_leaderboard == match batch.leaderboard {
            Some(rows) => leaderboard_is_stale(*c, rows.deep_view()),
            None => false,
        },
        plan.write_matches == match batch.matches {
            Some(m) => matches_is_stale(*c, m.deep_view()),
            None => false,
        },
        match batch.tournaments {
            Some(ts) => {
                &&& forall|j: int|
                    0 <= j < plan.tournament_indices@.len()
                        ==> plan.tournament_indices@[j] < ts@.len()
                &&& forall|j1: int, j2: int|
                    0 <= j1 < j2 < plan.tournament_indices@.len()
                        ==> plan.tournament_indices@[j1] < plan.tournament_indices@[j2]
                &&& forall|i: int|
                    0 <= i < ts@.len() ==> (tournament_is_stale(*c, ts@[i].deep_view())
                        <==> plan.tournament_indices@.contains(i as usize))
            },
            None => plan.tournament_indices@.len() == 0,
        },
{
    let write_count = match batch.count {
        Some(n) => if count_needs_write(c, n) {
            Some(n)
        } else {
            None
        },
        None => None,
    };
    let write_leaderboard = match &batch.leaderboard {
        Some(rows) => leaderboard_needs_write(c, rows),
        None => false,
    };
    let write_matches = match &batch.matches {
        Some(m) => match_needs_write(c, m),
        None => false,
    };
    let tournament_indices = match &batch.tournaments {
        Some(ts) => stale_tournament_indices(c, ts),
        None => Vec::new(),
    };
    CyclePlan { write_count, write_leaderboard, write_matches, tournament_indices }
}

/// Outcome of one record kind within one cycle.
#[derive(Clone, Copy, Debug, PartialEq, Eq, Structural)]
pub enum RecordOutcome {
    /// The kind's query or parse failed; nothing was written, the cache
    /// stayed put, and the next notification retries.
    FetchFailed,
    /// The fetched value agreed with the cache; no write was needed.
    Unchanged,
    /// The fetched value was written to the sink and the cache advanced.
    Updated,
    /// The sink rejected the write; the cache stayed put, so the next cycle
    /// reports the record as still out of sync.
    WriteFailed,
}

/// The per-kind outcome of one cycle: a failure of one kind leaves the
/// outcomes of the others standing.
pub struct SyncResult {
    pub count: RecordOutcome,
    pub leaderboard: RecordOutcome,
    pub matches: RecordOutcome,
    pub tournaments: RecordOutcome,
    pub participants: RecordOutcome,
}

/// The outcome of one record kind, from whether its fetch succeeded, whether
/// the diff asked for a write, and whether the sink accepted it.
pub fn record_outcome(fetched: bool, needed_write: bool, write_ok: bool) -> (r: RecordOutcome)
    ensures
        !fetched ==> r == RecordOutcome::FetchFailed,
        fetched && !needed_write ==> r == RecordOutcome::Unchanged,
        fetched && needed_write && write_ok ==> r == RecordOutcome::Updated,
        fetched && needed_write && !write_ok ==> r == RecordOutcome::WriteFailed,
{
    if !fetched {
        RecordOutcome::FetchFailed
    } else if !needed_write {
        RecordOutcome::Unchanged
    } else if write_ok {
        RecordOutcome::Updated
    } else {
        RecordOutcome::WriteFailed
    }
}

/// Whether an outcome means the kind is in sync after the cycle.
pub open spec fn outcome_ok(o: RecordOutcome) -> bool {
    o == RecordOutcome::Unchanged || o == RecordOutcome::Updated
}

impl SyncResult {
    /// Whether at least one record kind ended the cycle in sync.
    pub fn any_succeeded(&self) -> (r: bool)
        ensures
            r == (outcome_ok(self.count) || outcome_ok(self.leaderboard) || outcome_ok(
                self.matches,
            ) || outcome_ok(self.tournaments) || outcome_ok(self.participants)),
    {
        outcome_ok_exec(self.count) || outcome_ok_exec(self.leaderboard) || outcome_ok_exec(
            self.matches,
        ) || outcome_ok_exec(self.tournaments) || outcome_ok_exec(self.participants)
    }

    /// Whether at least one record kind ended the cycle out of sync.
    pub fn any_failed(&self) -> (r: bool)
        ensures
            r == (!outcome_ok(self.count) || !outcome_ok(self.leaderboard) || !outcome_ok(
                self.matches,
            ) || !outcome_ok(self.tournaments) || !outcome_ok(self.participants)),
    {
        !outcome_ok_exec(self.count) || !outcome_ok_exec(self.leaderboard) || !outcome_ok_exec(
            self.matches,
        ) || !outcome_ok_exec(self.tournaments) || !outcome_ok_exec(self.participants)
    }

    /// Whether the cycle ended in partial success: some kinds in sync, some
    /// not, with neither failure nor success total.
    pub fn partial_success(&self) -> (r: bool)
        ensures
            r == ({
                &&& (outcome_ok(self.count) || outcome_ok(self.leaderboard) || outcome_ok(
                    self.matches,
                ) || outcome_ok(self.tournaments) || outcome_ok(self.participants))
                &&& (!outcome_ok(self.count) || !outcome_ok(self.leaderboard) || !outcome_ok(
                    self.matches,
                ) || !outcome_ok(self.tournaments) || !outcome_ok(self.participants))
            }),
    {
        self.any_succeeded() && self.any_failed()
    }
}

/// Executable mirror of [`outcome_ok`].
fn outcome_ok_exec(o: RecordOutcome) -> (r: bool)
    ensures
        r == outcome_ok(o),
{
    match o {
        RecordOutcome::Unchanged => true,
        RecordOutcome::Updated => true,
        _ => false,
    }
}

} // verus!
