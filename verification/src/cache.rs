//! The per-chain cache of last-known synchronized values.
//!
//! A cache entry advances only when the corresponding external write has
//! succeeded; a failed write leaves the cache in its prior state, so the next
//! cycle's diff reports the record as still out of sync.

use crate::models::leaderboard::{lb_map, Leaderboard, LeaderboardView};
use crate::models::match_history::{MatchHistory, MatchHistoryView};
use crate::models::tournament::{Tournament, TournamentParticipant, TournamentParticipantView, TournamentView};
use crate::store::KeyedStore;
use vstd::prelude::*;

verus! {

/// Last-known values of every record kind synchronized for one chain: the
/// scalar counter, the leaderboard collection, the last match, and the keyed
/// maps of tournaments and of participants per tournament.
pub struct CachedState {
    pub count: Option<u64>,
    pub leaderboard: Option<Vec<Leaderboard>>,
    pub matches: Option<MatchHistory>,
    pub tournaments: KeyedStore<Tournament>,
    pub participants: KeyedStore<KeyedStore<TournamentParticipant>>,
}

/// Whether a fetched count disagrees with the cache and must be written.
pub open spec fn count_is_stale(c: CachedState, n: u64) -> bool {
    c.count != Some(n)
}

/// Whether a fetched leaderboard differs in content from the cached one and
/// must be replaced. The comparison is key by key, never positional.
pub open spec fn leaderboard_is_stale(c: CachedState, rows: Seq<LeaderboardView>) -> bool {
    match c.leaderboard {
        None => true,
        Some(cached) => lb_map(cached.deep_view()) != lb_map(rows),
    }
}

/// Whether a fetched last match differs in content from the cached one and
/// must be written.
pub open spec fn matches_is_stale(c: CachedState, m: MatchHistoryView) -> bool {
    c.matches.deep_view() != Some(m)
}

/// Whether a fetched tournament is new to the cache or differs in content
/// from the cached entry under its id.
pub open spec fn tournament_is_stale(c: CachedState, t: TournamentView) -> bool {
    ||| !c.tournaments@.contains_key(t.tournament_id)
    ||| c.tournaments@[t.tournament_id].deep_view() != t
}

/// Whether a fetched participant of the given tournament is new to the cache
/// or differs in content from the cached entry under its id.
pub open spec fn participant_is_stale(
    c: CachedState,
    tournament_id: Seq<char>,
    p: TournamentParticipantView,
) -> bool {
    ||| !c.participants@.contains_key(tournament_id)
    ||| !c.participants@[tournament_id]@.contains_key(p.id)
    ||| c.participants@[tournament_id]@[p.id].deep_view() != p
}

impl CachedState {
    /// The cache of a fresh worker: nothing is known to be synchronized.
    pub fn new() -> (r: CachedState)
        ensures
            r.count == None::<u64>,
            r.leaderboard == None::<Vec<Leaderboard>>,
            r.matches == None::<MatchHistory>,
            r.tournaments@ == Map::<Seq<char>, Tournament>::empty(),
            r.participants@ == Map::<Seq<char>, KeyedStore<TournamentParticipant>>::empty(),
    {
        CachedState {
            count: None,
            leaderboard: None,
            matches: None,
            tournaments: KeyedStore::new(),
            participants: KeyedStore::new(),
        }
    }

    /// Records that the fetched count was written successfully. Called only
    /// after the sink accepted the write; every other entry is untouched.
    pub fn commit_count(&mut self, n: u64)
        ensures
            final(self).count == Some(n),
            !count_is_stale(*final(self), n),
            final(self).leaderboard == old(self).leaderboard,
            final(self).matches == old(self).matches,
            final(self).tournaments == old(self).tournaments,
            final(self).participants == old(self).participants,
    {
        self.count = Some(n);
    }

    /// Records that the fetched leaderboard was written successfully.
    pub fn commit_leaderboard(&mut self, rows: Vec<Leaderboard>)
        ensures
            final(self).leaderboard == Some(rows),
            !leaderboard_is_stale(*final(self), rows.deep_view()),
            final(self).count == old(self).count,
            final(self).matches == old(self).matches,
            final(self).tournaments == old(self).tournaments,
            final(self).participants == old(self).participants,
    {
        self.leaderboard = Some(rows);
    }

    /// Records that the fetched last match was written successfully.
    pub fn commit_match(&mut self, m: MatchHistory)
        ensures
            final(self).matches == Some(m),
            !matches_is_stale(*final(self), m.deep_view()),
            final(self).count == old(self).count,
            final(self).leaderboard == old(self).leaderboard,
            final(self).tournaments == old(self).tournaments,
            final(self).participants == old(self).participants,
    {
        self.matches = Some(m);
    }

    /// Records that the fetched tournament was written successfully: the
    /// cache now holds it under its id, and no other tournament moved.
    pub fn commit_tournament(&mut self, t: Tournament)
        ensures
            final(self).tournaments@ == old(self).tournaments@.insert(t.tournament_id@, t),
            !tournament_is_stale(*final(self), t.deep_view()),
            final(self).count == old(self).count,
            final(self).leaderboard == old(self).leaderboard,
            final(self).matches == old(self).matches,
            final(self).participants == old(self).participants,
    {
        let key = t.tournament_id.clone();
        self.tournaments.insert(key, t);
    }

    /// Records that the fetched participant of the given tournament was
    /// written successfully: the cache for that tournament now holds it
    /// under its id, and no other tournament's participants moved.
    pub fn commit_participant(&mut self, tournament_id: &String, p: TournamentParticipant)
        ensures
            final(self).participants@.dom() == old(self).participants@.dom().insert(
                tournament_id@,
            ),
            final(self).participants@[tournament_id@]@ == if old(
                self,
            ).participants@.contains_key(tournament_id@) {
                old(self).participants@[tournament_id@]@.insert(p.id@, p)
            } else {
                Map::<Seq<char>, TournamentParticipant>::empty().insert(p.id@, p)
            },
            forall|k: Seq<char>|
                k != tournament_id@ && old(self).participants@.contains_key(k)
                    ==> final(self).participants@[k] == old(self).participants@[k],
            !participant_is_stale(*final(self), tournament_id@, p.deep_view()),
            final(self).count == old(self).count,
            final(self).leaderboard == old(self).leaderboard,
            final(self).matches == old(self).matches,
            final(self).tournaments == old(self).tournaments,
    {
        let mut inner = match self.participants.remove(tournament_id) {
            Some(m) => m,
            None => KeyedStore::new(),
        };
        let key = p.id.clone();
        inner.insert(key, p);
        self.participants.insert(tournament_id.clone(), inner);
        proof {
            assert(self.participants@.dom() =~= old(self).participants@.dom().insert(
                tournament_id@,
            ));
        }
    }

    /// Applies the sink's verdict on a count write: the cache advances
    /// exactly when the write succeeded. After a failed write the cache is
    /// untouched, so an identical later fetch still reports the count as
    /// changed.
    pub fn apply_count_result(&mut self, n: u64, write_ok: bool)
        ensures
            write_ok ==> final(self).count == Some(n) && !count_is_stale(*final(self), n),
            !write_ok ==> *final(self) == *old(self),
            !write_ok && count_is_stale(*old(self), n) ==> count_is_stale(*final(self), n),
            final(self).leaderboard == old(self).leaderboard,
            final(self).matches == old(self).matches,
            final(self).tournaments == old(self).tournaments,
            final(self).participants == old(self).participants,
    {
        if write_ok {
            self.commit_count(n);
        }
    }

    /// Applies the sink's verdict on a leaderboard replace-all: the cache
    /// advances exactly when the write succeeded; after a failure an
    /// identical later fetch still reports the leaderboard as changed.
    pub fn apply_leaderboard_result(&mut self, rows: Vec<Leaderboard>, write_ok: bool)
        ensures
            write_ok ==> final(self).leaderboard == Some(rows) && !leaderboard_is_stale(
                *final(self),
                rows.deep_view(),
            ),
            !write_ok ==> *final(self) == *old(self),
            !write_ok && leaderboard_is_stale(*old(self), rows.deep_view())
                ==> leaderboard_is_stale(*final(self), rows.deep_view()),
            final(self).count == old(self).count,
            final(self).matches == old(self).matches,
            final(self).tournaments == old(self).tournaments,
            final(self).participants == old(self).participants,
    {
        if write_ok {
            self.commit_leaderboard(rows);
        }
    }

    /// Applies the sink's verdict on a last-match write: the cache advances
    /// exactly when the write succeeded; after a failure an identical later
    /// fetch still reports the match as changed.
    pub fn apply_match_result(&mut self, m: MatchHistory, write_ok: bool)
        ensures
            write_ok ==> final(self).matches == Some(m) && !matches_is_stale(
                *final(self),
                m.deep_view(),
            ),
            !write_ok ==> *final(self) == *old(self),
            !write_ok && matches_is_stale(*old(self), m.deep_view()) ==> matches_is_stale(
                *final(self),
                m.deep_view(),
            ),
            final(self).count == old(self).count,
            final(self).leaderboard == old(self).leaderboard,
            final(self).tournaments == old(self).tournaments,
            final(self).participants == old(self).participants,
    {
        if write_ok {
            self.commit_match(m);
        }
    }

    /// Applies the sink's verdict on a tournament upsert: the cache advances
    /// exactly when the write succeeded; after a failure an identical later
    /// fetch still reports the tournament as changed.
    pub fn apply_tournament_result(&mut self, t: Tournament, write_ok: bool)
        ensures
            write_ok ==> final(self).tournaments@ == old(self).tournaments@.insert(
                t.tournament_id@,
                t,
            ) && !tournament_is_stale(*final(self), t.deep_view()),
            !write_ok ==> *final(self) == *old(self),
            !write_ok && tournament_is_stale(*old(self), t.deep_view()) ==> tournament_is_stale(
                *final(self),
                t.deep_view(),
            ),
            final(self).count == old(self).count,
            final(self).leaderboard == old(self).leaderboard,
            final(self).matches == old(self).matches,
            final(self).participants == old(self).participants,
    {
        if write_ok {
            self.commit_tournament(t);
        }
    }

    /// Applies the sink's verdict on a participant upsert: the cache
    /// advances exactly when the write succeeded; after a failure an
    /// identical later fetch still reports the participant as changed.
    pub fn apply_participant_result(
        &mut self,
        tournament_id: &String,
        p: TournamentParticipant,
        write_ok: bool,
    )
        ensures
            write_ok ==> !participant_is_stale(*final(self), tournament_id@, p.deep_view()),
            !write_ok ==> *final(self) == *old(self),
            !write_ok && participant_is_stale(*old(self), tournament_id@, p.deep_view())
                ==> participant_is_stale(*final(self), tournament_id@, p.deep_view()),
            forall|k: Seq<char>|
                k != tournament_id@ && old(self).participants@.contains_key(k)
                    ==> final(self).participants@.contains_key(k)
                    && #[trigger] final(self).participants@[k] == old(self).participants@[k],
            final(self).count == old(self).count,
            final(self).leaderboard == old(self).leaderboard,
            final(self).matches == old(self).matches,
            final(self).tournaments == old(self).tournaments,
    {
        if write_ok {
            self.commit_participant(tournament_id, p);
        }
    }
}

} // verus!
