use chain_sync::cache::CachedState;
use chain_sync::models::leaderboard::{lb_content_equal, Leaderboard};
use chain_sync::models::match_history::{MatchHistory, Player};
use chain_sync::models::GameCount;
use chain_sync::sync::{
    count_needs_write, leaderboard_needs_write, match_needs_write, plan_cycle, record_outcome,
    stale_participant_indices, FetchBatch, RecordOutcome, SyncResult,
};
use chain_sync::models::tournament::{PlayerInfo, TournamentParticipant};

fn row(id: &str, elo: u32) -> Leaderboard {
    Leaderboard {
        id: id.to_string(),
        name: None,
        elo,
        matches: 0,
        won: 0,
        lost: 0,
    }
}

fn participant(id: &str, elo: u32) -> TournamentParticipant {
    TournamentParticipant {
        id: id.to_string(),
        player: PlayerInfo {
            name: None,
            elo,
            matches: 0,
            ath: elo,
        },
    }
}

#[test]
fn count_scenario_empty_cache_then_unchanged() {
    // Count cache empty, fetch 5: one upsert with value "5"; after the
    // commit the cache holds 5 and an identical fetch needs no write.
    let mut cache = CachedState::new();
    assert!(count_needs_write(&cache, 5));

    let record = GameCount::singleton(5);
    assert_eq!(record.id, "singleton");
    assert_eq!(record.count, "5");

    cache.commit_count(5);
    assert_eq!(cache.count, Some(5));
    assert!(!count_needs_write(&cache, 5));
    assert!(count_needs_write(&cache, 6));
}

#[test]
fn count_failed_write_keeps_cache_stale() {
    // A failed write leaves the cache untouched, so the identical fetch
    // still reports the count as changed.
    let mut cache = CachedState::new();
    assert!(count_needs_write(&cache, 5));
    cache.apply_count_result(5, false);
    assert_eq!(cache.count, None);
    assert!(count_needs_write(&cache, 5));
    cache.apply_count_result(5, true);
    assert!(!count_needs_write(&cache, 5));
}

#[test]
fn leaderboard_reordering_is_no_change() {
    // Fetching [a: 10, b: 20] and then [b: 20, a: 10] is the same content:
    // no write.
    let first = vec![row("a", 10), row("b", 20)];
    let second = vec![row("b", 20), row("a", 10)];
    assert!(lb_content_equal(&first, &second));

    let mut cache = CachedState::new();
    assert!(leaderboard_needs_write(&cache, &first));
    cache.commit_leaderboard(first);
    assert!(!leaderboard_needs_write(&cache, &second));
}

#[test]
fn leaderboard_content_change_is_detected() {
    let first = vec![row("a", 10), row("b", 20)];
    let changed_value = vec![row("b", 21), row("a", 10)];
    let changed_keys = vec![row("a", 10)];
    let mut cache = CachedState::new();
    cache.commit_leaderboard(first);
    assert!(leaderboard_needs_write(&cache, &changed_value));
    assert!(leaderboard_needs_write(&cache, &changed_keys));
}

#[test]
fn leaderboard_duplicate_ids_keep_later_row() {
    // Within one fetch a duplicated id counts by its latest row, mirroring
    // keyed insertion order.
    let duplicated = vec![row("x", 1), row("x", 2)];
    let collapsed = vec![row("x", 2)];
    assert!(lb_content_equal(&duplicated, &collapsed));
    let earlier = vec![row("x", 1)];
    assert!(!lb_content_equal(&duplicated, &earlier));
}

#[test]
fn empty_leaderboard_is_still_a_first_write() {
    // An empty fetch against an empty cache still differs: nothing is known
    // to be synchronized until the first successful write.
    let mut cache = CachedState::new();
    let empty: Vec<Leaderboard> = Vec::new();
    assert!(leaderboard_needs_write(&cache, &empty));
    cache.commit_leaderboard(Vec::new());
    assert!(!leaderboard_needs_write(&cache, &empty));
}

#[test]
fn leaderboard_failed_write_keeps_cache_stale() {
    let first = vec![row("a", 10)];
    let mut cache = CachedState::new();
    assert!(leaderboard_needs_write(&cache, &first));
    cache.apply_leaderboard_result(first.clone(), false);
    assert!(leaderboard_needs_write(&cache, &first));
    cache.apply_leaderboard_result(first.clone(), true);
    assert!(!leaderboard_needs_write(&cache, &first));
}

#[test]
fn keyed_participant_diff_is_minimal() {
    // Cached participants {p1: elo 100}; a fetch of {p1: elo 100, p2: elo
    // 50} writes only p2.
    let mut cache = CachedState::new();
    let tid = "t1".to_string();
    cache.commit_participant(&tid, participant("p1", 100));

    let fetched = vec![participant("p1", 100), participant("p2", 50)];
    let stale = stale_participant_indices(&cache, &tid, &fetched);
    assert_eq!(stale, vec![1]);

    // After p2's write succeeds, the same fetch needs nothing.
    cache.apply_participant_result(&tid, participant("p2", 50), true);
    let stale_after = stale_participant_indices(&cache, &tid, &fetched);
    assert!(stale_after.is_empty());
}

#[test]
fn participant_change_in_value_is_written() {
    let mut cache = CachedState::new();
    let tid = "t1".to_string();
    cache.commit_participant(&tid, participant("p1", 100));
    let fetched = vec![participant("p1", 101)];
    let stale = stale_participant_indices(&cache, &tid, &fetched);
    assert_eq!(stale, vec![0]);
}

#[test]
fn participants_are_cached_per_tournament() {
    // Caching p1 under one tournament says nothing about another.
    let mut cache = CachedState::new();
    let t1 = "t1".to_string();
    let t2 = "t2".to_string();
    cache.commit_participant(&t1, participant("p1", 100));
    let fetched = vec![participant("p1", 100)];
    assert!(stale_participant_indices(&cache, &t1, &fetched).is_empty());
    assert_eq!(stale_participant_indices(&cache, &t2, &fetched), vec![0]);
}

fn small_tournament(id: &str, prize_pool: u32) -> chain_sync::models::tournament::Tournament {
    chain_sync::models::tournament::Tournament {
        organiser_chain: "oc".to_string(),
        organiser_id: "oid".to_string(),
        organiser_name: "org".to_string(),
        tournament_id: id.to_string(),
        tournament_name: "Cup".to_string(),
        tournament_description: None,
        tournament_format: "swiss".to_string(),
        match_type: "ranked".to_string(),
        game_mode: "standard".to_string(),
        time_control: None,
        max_players: None,
        min_players: None,
        starting_time: 0,
        end_time: 0,
        prize_type: None,
        prize_pool_description: None,
        prize_pool,
        visibility: "public".to_string(),
        banner_image_url: None,
        sponsor_logo_url: None,
        custom_tags: Vec::new(),
        version: "1".to_string(),
        created_at: 0,
        updated_at: 0,
        status: "open".to_string(),
    }
}

#[test]
fn only_changed_tournaments_are_planned() {
    // With t1 cached unchanged and t2 changed, a fetch of [t1, t2, t3]
    // plans writes for t2 and the new t3 only.
    let mut cache = CachedState::new();
    cache.commit_tournament(small_tournament("t1", 100));
    cache.commit_tournament(small_tournament("t2", 100));
    let fetched = vec![
        small_tournament("t1", 100),
        small_tournament("t2", 150),
        small_tournament("t3", 10),
    ];
    let batch = FetchBatch {
        count: None,
        leaderboard: None,
        matches: None,
        tournaments: Some(fetched),
    };
    let plan = plan_cycle(&cache, &batch);
    assert_eq!(plan.tournament_indices, vec![1, 2]);
}

fn a_match(hash: &str) -> MatchHistory {
    MatchHistory {
        you: Player {
            id: "me".to_string(),
            name: Some("Me".to_string()),
        },
        opponent: Player {
            id: "you".to_string(),
            name: None,
        },
        blob_hash: hash.to_string(),
    }
}

#[test]
fn partial_cycle_failure_writes_the_successful_kinds() {
    // The matches query fails while count and leaderboard succeed: both
    // successful kinds are planned for writing, and the cycle reports
    // partial success rather than total failure.
    let cache = CachedState::new();
    let batch = FetchBatch {
        count: Some(5),
        leaderboard: Some(vec![row("a", 10)]),
        matches: None,
        tournaments: None,
    };
    let plan = plan_cycle(&cache, &batch);
    assert_eq!(plan.write_count, Some(5));
    assert!(plan.write_leaderboard);
    assert!(!plan.write_matches);
    assert!(plan.tournament_indices.is_empty());

    let result = SyncResult {
        count: record_outcome(true, true, true),
        leaderboard: record_outcome(true, true, true),
        matches: record_outcome(false, false, false),
        tournaments: record_outcome(false, false, false),
        participants: record_outcome(false, false, false),
    };
    assert_eq!(result.count, RecordOutcome::Updated);
    assert_eq!(result.leaderboard, RecordOutcome::Updated);
    assert_eq!(result.matches, RecordOutcome::FetchFailed);
    assert!(result.partial_success());
}

#[test]
fn cycle_with_nothing_fetched_plans_nothing() {
    let cache = CachedState::new();
    let batch = FetchBatch {
        count: None,
        leaderboard: None,
        matches: None,
        tournaments: None,
    };
    let plan = plan_cycle(&cache, &batch);
    assert_eq!(plan.write_count, None);
    assert!(!plan.write_leaderboard);
    assert!(!plan.write_matches);
    assert!(plan.tournament_indices.is_empty());
}

#[test]
fn unchanged_cycle_plans_nothing() {
    let mut cache = CachedState::new();
    cache.commit_count(5);
    cache.commit_leaderboard(vec![row("a", 10)]);
    cache.commit_match(a_match("h1"));
    let batch = FetchBatch {
        count: Some(5),
        leaderboard: Some(vec![row("a", 10)]),
        matches: Some(a_match("h1")),
        tournaments: None,
    };
    let plan = plan_cycle(&cache, &batch);
    assert_eq!(plan.write_count, None);
    assert!(!plan.write_leaderboard);
    assert!(!plan.write_matches);
}

#[test]
fn match_change_is_detected_and_committed() {
    let mut cache = CachedState::new();
    assert!(match_needs_write(&cache, &a_match("h1")));
    cache.apply_match_result(a_match("h1"), false);
    assert!(match_needs_write(&cache, &a_match("h1")));
    cache.apply_match_result(a_match("h1"), true);
    assert!(!match_needs_write(&cache, &a_match("h1")));
    assert!(match_needs_write(&cache, &a_match("h2")));
}

#[test]
fn record_outcome_covers_every_case() {
    assert_eq!(record_outcome(false, false, false), RecordOutcome::FetchFailed);
    assert_eq!(record_outcome(true, false, false), RecordOutcome::Unchanged);
    assert_eq!(record_outcome(true, true, true), RecordOutcome::Updated);
    assert_eq!(record_outcome(true, true, false), RecordOutcome::WriteFailed);
}

#[test]
fn all_kinds_in_sync_is_not_partial() {
    let result = SyncResult {
        count: RecordOutcome::Unchanged,
        leaderboard: RecordOutcome::Updated,
        matches: RecordOutcome::Unchanged,
        tournaments: RecordOutcome::Unchanged,
        participants: RecordOutcome::Unchanged,
    };
    assert!(result.any_succeeded());
    assert!(!result.any_failed());
    assert!(!result.partial_success());
}
