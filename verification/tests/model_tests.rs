use chain_sync::models::leaderboard::Leaderboard;
use chain_sync::models::match_history::{MatchHistory, MatchHistoryDB, Player};
use chain_sync::models::tournament::{
    participants_query, PlayerInfo, TimeControl, Tournament, TournamentDB,
    TournamentParticipant, TournamentParticipantDB, PARTICIPANTS_QUERY_PREFIX,
    PARTICIPANTS_QUERY_SUFFIX, QUERY_TOURNAMENTS,
};
use chain_sync::models::GameCount;
use chain_sync::supabase::{bearer_token, delete_all_endpoint, prefer_header, rest_endpoint, SinkWrite};
use chain_sync::text::u64_to_dec;

#[test]
fn decimal_rendering_exact_values() {
    assert_eq!(u64_to_dec(0), "0");
    assert_eq!(u64_to_dec(5), "5");
    assert_eq!(u64_to_dec(10), "10");
    assert_eq!(u64_to_dec(120), "120");
    assert_eq!(u64_to_dec(u64::MAX), "18446744073709551615");
}

#[test]
fn game_count_singleton_row() {
    let record = GameCount::singleton(42);
    assert_eq!(record.id, "singleton");
    assert_eq!(record.count, "42");
}

#[test]
fn participants_query_embeds_the_tournament_id() {
    let q = participants_query("t-17");
    let expected = format!(
        r#"{{"query": "query {{ participants(tournamentId: \"{}\") {{ id player {{ name elo matches ath }} }} }}"}}"#,
        "t-17"
    );
    assert_eq!(q, expected);
    assert_eq!(
        q,
        format!("{}t-17{}", PARTICIPANTS_QUERY_PREFIX, PARTICIPANTS_QUERY_SUFFIX)
    );
}

#[test]
fn tournament_query_selects_all_fields() {
    assert!(QUERY_TOURNAMENTS.contains("allTournaments"));
    assert!(QUERY_TOURNAMENTS.contains("timeControl"));
}

fn tournament(id: &str) -> Tournament {
    Tournament {
        organiser_chain: "oc".to_string(),
        organiser_id: "oid".to_string(),
        organiser_name: "org".to_string(),
        tournament_id: id.to_string(),
        tournament_name: "Cup".to_string(),
        tournament_description: Some("desc".to_string()),
        tournament_format: "swiss".to_string(),
        match_type: "ranked".to_string(),
        game_mode: "standard".to_string(),
        time_control: Some(TimeControl {
            base_minutes: 3,
            increment_seconds: 2,
            mode_label: Some("3+2".to_string()),
        }),
        max_players: Some(32),
        min_players: Some(4),
        starting_time: 1000,
        end_time: 2000,
        prize_type: None,
        prize_pool_description: None,
        prize_pool: 500,
        visibility: "public".to_string(),
        banner_image_url: None,
        sponsor_logo_url: None,
        custom_tags: vec!["blitz".to_string()],
        version: "1".to_string(),
        created_at: 900,
        updated_at: 950,
        status: "open".to_string(),
    }
}

#[test]
fn tournament_for_db_flattens_time_control() {
    let t = tournament("t1");
    let db = t.for_db();
    assert_eq!(db.tournament_id, "t1");
    assert_eq!(db.time_control_base_minutes, 3);
    assert_eq!(db.time_control_increment_seconds, 2);
    assert_eq!(db.time_control_mode_label, Some("3+2".to_string()));
    assert_eq!(db.custom_tags, vec!["blitz".to_string()]);
    assert_eq!(db.prize_pool, 500);

    let mut bare = tournament("t2");
    bare.time_control = None;
    let db2 = bare.for_db();
    assert_eq!(db2.time_control_base_minutes, 0);
    assert_eq!(db2.time_control_increment_seconds, 0);
    assert_eq!(db2.time_control_mode_label, None);
}

#[test]
fn tournament_content_eq_spots_nested_changes() {
    let a = tournament("t1");
    let mut b = tournament("t1");
    assert!(a.content_eq(&b));
    b.time_control = Some(TimeControl {
        base_minutes: 3,
        increment_seconds: 5,
        mode_label: Some("3+2".to_string()),
    });
    assert!(!a.content_eq(&b));
}

#[test]
fn match_for_db_carries_both_players() {
    let m = MatchHistory {
        you: Player {
            id: "p1".to_string(),
            name: Some("Ann".to_string()),
        },
        opponent: Player {
            id: "p2".to_string(),
            name: None,
        },
        blob_hash: "abc".to_string(),
    };
    let db = m.for_db();
    assert_eq!(db.player_1_id, "p1");
    assert_eq!(db.player_1_name, Some("Ann".to_string()));
    assert_eq!(db.player_2_id, "p2");
    assert_eq!(db.player_2_name, None);
    assert_eq!(db.blob_hash, "abc");
}

#[test]
fn participant_for_db_carries_player_fields() {
    let p = TournamentParticipant {
        id: "p9".to_string(),
        player: PlayerInfo {
            name: Some("Bo".to_string()),
            elo: 1500,
            matches: 10,
            ath: 1600,
        },
    };
    let db = p.for_db("t1".to_string());
    assert_eq!(db.id, "p9");
    assert_eq!(db.tournament_id, "t1");
    assert_eq!(db.player_name, Some("Bo".to_string()));
    assert_eq!(db.player_elo, 1500);
    assert_eq!(db.player_matches, 10);
    assert_eq!(db.player_ath, 1600);
}

#[test]
fn sink_endpoints_and_headers() {
    assert_eq!(
        rest_endpoint("https://db.example", "leaderboard"),
        "https://db.example/rest/v1/leaderboard"
    );
    assert_eq!(
        delete_all_endpoint("https://db.example", "leaderboard", "id"),
        "https://db.example/rest/v1/leaderboard?id=neq."
    );
    assert_eq!(bearer_token("k1"), "Bearer k1");
    assert_eq!(prefer_header(SinkWrite::Insert), "return=representation");
    assert_eq!(prefer_header(SinkWrite::Upsert), "resolution=merge-duplicates");
}

#[test]
fn table_names_match_the_sink_schema() {
    assert_eq!(GameCount::table_name(), "gameCount");
    assert_eq!(GameCount::primary_key(), "id");
    assert_eq!(Leaderboard::table_name(), "leaderboard");
    assert_eq!(MatchHistoryDB::table_name(), "matchHistory");
    assert_eq!(TournamentDB::table_name(), "tournaments");
    assert_eq!(TournamentDB::primary_key(), "tournament_id");
    assert_eq!(TournamentParticipantDB::table_name(), "tournament_participants");
}
