//! Tournament metadata, tournament participants, and their sink rows.

use crate::models::match_history::clone_opt_string;
use crate::text::{opt_string_eq, vec_string_eq};
use vstd::prelude::*;
use vstd::string::StringExecFns;

verus! {

/// Clock settings of a tournament.
#[derive(Clone, Debug)]
pub struct TimeControl {
    pub base_minutes: u32,
    pub increment_seconds: u32,
    pub mode_label: Option<String>,
}

/// Mathematical content of a [`TimeControl`].
#[verifier::ext_equal]
pub ghost struct TimeControlView {
    pub base_minutes: u32,
    pub increment_seconds: u32,
    pub mode_label: Option<Seq<char>>,
}

impl DeepView for TimeControl {
    type V = TimeControlView;

    open spec fn deep_view(&self) -> TimeControlView {
        TimeControlView {
            base_minutes: self.base_minutes,
            increment_seconds: self.increment_seconds,
            mode_label: self.mode_label.deep_view(),
        }
    }
}

impl TimeControl {
    /// Content equality of two clock settings.
    pub fn content_eq(&self, other: &TimeControl) -> (r: bool)
        ensures
            r == (self.deep_view() == other.deep_view()),
    {
        let r = self.base_minutes == other.base_minutes && self.increment_seconds
            == other.increment_seconds && opt_string_eq(&self.mode_label, &other.mode_label);
        proof {
            if r {
                assert(self.deep_view() =~= other.deep_view());
            }
        }
        r
    }
}

/// Content equality of optional clock settings.
pub fn opt_time_control_eq(a: &Option<TimeControl>, b: &Option<TimeControl>) -> (r: bool)
    ensures
        r == (a.deep_view() == b.deep_view()),
{
    match (a, b) {
        (Some(x), Some(y)) => x.content_eq(y),
        (None, None) => true,
        _ => false,
    }
}

/// One tournament as fetched from a chain, keyed by `tournament_id`.
#[derive(Clone, Debug)]
pub struct Tournament {
    pub organiser_chain: String,
    pub organiser_id: String,
    pub organiser_name: String,
    pub tournament_id: String,
    pub tournament_name: String,
    pub tournament_description: Option<String>,
    pub tournament_format: String,
    pub match_type: String,
    pub game_mode: String,
    pub time_control: Option<TimeControl>,
    pub max_players: Option<u32>,
    pub min_players: Option<u32>,
    pub starting_time: usize,
    pub end_time: usize,
    pub prize_type: Option<String>,
    pub prize_pool_description: Option<String>,
    pub prize_pool: u32,
    pub visibility: String,
    pub banner_image_url: Option<String>,
    pub sponsor_logo_url: Option<String>,
    pub custom_tags: Vec<String>,
    pub version: String,
    pub created_at: usize,
    pub updated_at: usize,
    pub status: String,
}

/// Mathematical content of a [`Tournament`].
#[verifier::ext_equal]
pub ghost struct TournamentView {
    pub organiser_chain: Seq<char>,
    pub organiser_id: Seq<char>,
    pub organiser_name: Seq<char>,
    pub tournament_id: Seq<char>,
    pub tournament_name: Seq<char>,
    pub tournament_description: Option<Seq<char>>,
    pub tournament_format: Seq<char>,
    pub match_type: Seq<char>,
    pub game_mode: Seq<char>,
    pub time_control: Option<TimeControlView>,
    pub max_players: Option<u32>,
    pub min_players: Option<u32>,
    pub starting_time: usize,
    pub end_time: usize,
    pub prize_type: Option<Seq<char>>,
    pub prize_pool_description: Option<Seq<char>>,
    pub prize_pool: u32,
    pub visibility: Seq<char>,
    pub banner_image_url: Option<Seq<char>>,
    pub sponsor_logo_url: Option<Seq<char>>,
    pub custom_tags: Seq<Seq<char>>,
    pub version: Seq<char>,
    pub created_at: usize,
    pub updated_at: usize,
    pub status: Seq<char>,
}

impl DeepView for Tournament {
    type V = TournamentView;

    open spec fn deep_view(&self) -> TournamentView {
        TournamentView {
            organiser_chain: self.organiser_chain@,
            organiser_id: self.organiser_id@,
            organiser_name: self.organiser_name@,
            tournament_id: self.tournament_id@,
            tournament_name: self.tournament_name@,
            tournament_description: self.tournament_description.deep_view(),
            tournament_format: self.tournament_format@,
            match_type: self.match_type@,
            game_mode: self.game_mode@,
            time_control: self.time_control.deep_view(),
            max_players: self.max_players,
            min_players: self.min_players,
            starting_time: self.starting_time,
            end_time: self.end_time,
            prize_type: self.prize_type.deep_view(),
            prize_pool_description: self.prize_pool_description.deep_view(),
            prize_pool: self.prize_pool,
            visibility: self.visibility@,
            banner_image_url: self.banner_image_url.deep_view(),
            sponsor_logo_url: self.sponsor_logo_url.deep_view(),
            custom_tags: self.custom_tags.deep_view(),
            version: self.version@,
            created_at: self.created_at,
            updated_at: self.updated_at,
            status: self.status@,
        }
    }
}

/// Clones a string vector, preserving its content.
fn clone_vec_string(a: &Vec<String>) -> (r: Vec<String>)
    ensures
        r.deep_view() == a.deep_view(),
{
    let mut r: Vec<String> = Vec::new();
    let mut i: usize = 0;
    while i < a.len()
        invariant
            i <= a.len(),
            r.len() == i,
            forall|j: int| 0 <= j < i ==> r.deep_view()[j] == a.deep_view()[j],
        decreases a.len() - i,
    {
        r.push(a[i].clone());
        i += 1;
    }
    proof {
        assert(r.deep_view() =~= a.deep_view());
    }
    r
}

impl Tournament {
    /// Content equality of two tournaments, stated over their abstract views.
    pub fn content_eq(&self, other: &Tournament) -> (r: bool)
        ensures
            r == (self.deep_view() == other.deep_view()),
    {
        let r = self.organiser_chain == other.organiser_chain && self.organiser_id
            == other.organiser_id && self.organiser_name == other.organiser_name
            && self.tournament_id == other.tournament_id && self.tournament_name
            == other.tournament_name && opt_string_eq(
            &self.tournament_description,
            &other.tournament_description,
        ) && self.tournament_format == other.tournament_format && self.match_type
            == other.match_type && self.game_mode == other.game_mode && opt_time_control_eq(
            &self.time_control,
            &other.time_control,
        ) && self.max_players == other.max_players && self.min_players == other.min_players
            && self.starting_time == other.starting_time && self.end_time == other.end_time
            && opt_string_eq(&self.prize_type, &other.prize_type) && opt_string_eq(
            &self.prize_pool_description,
            &other.prize_pool_description,
        ) && self.prize_pool == other.prize_pool && self.visibility == other.visibility
            && opt_string_eq(&self.banner_image_url, &other.banner_image_url) && opt_string_eq(
            &self.sponsor_logo_url,
            &other.sponsor_logo_url,
        ) && vec_string_eq(&self.custom_tags, &other.custom_tags) && self.version == other.version
            && self.created_at == other.created_at && self.updated_at == other.updated_at
            && self.status == other.status;
        proof {
            if r {
                assert(self.deep_view() =~= other.deep_view());
            }
        }
        r
    }

    /// Flattens the tournament into its sink row: identity, format, schedule
    /// and branding fields carried over unchanged; the optional clock
    /// settings flattened with zero minutes and seconds when absent.
    pub fn for_db(&self) -> (r: TournamentDB)
        ensures
            r.tournament_id@ == self.tournament_id@,
            r.organiser_chain@ == self.organiser_chain@,
            r.organiser_id@ == self.organiser_id@,
            r.organiser_name@ == self.organiser_name@,
            r.tournament_name@ == self.tournament_name@,
            r.tournament_description.deep_view() == self.tournament_description.deep_view(),
            r.tournament_format@ == self.tournament_format@,
            r.match_type@ == self.match_type@,
            r.game_mode@ == self.game_mode@,
            r.time_control_base_minutes == match self.time_control {
                Some(tc) => tc.base_minutes,
                None => 0u32,
            },
            r.time_control_increment_seconds == match self.time_control {
                Some(tc) => tc.increment_seconds,
                None => 0u32,
            },
            r.time_control_mode_label.deep_view() == match self.time_control {
                Some(tc) => tc.mode_label.deep_view(),
                None => None::<Seq<char>>,
            },
            r.max_players == self.max_players,
            r.min_players == self.min_players,
            r.starting_time == self.starting_time,
            r.end_time == self.end_time,
            r.prize_pool_description.deep_view() == self.prize_pool_description.deep_view(),
            r.visibility@ == self.visibility@,
            r.banner_image_url.deep_view() == self.banner_image_url.deep_view(),
            r.sponsor_logo_url.deep_view() == self.sponsor_logo_url.deep_view(),
            r.prize_type.deep_view() == self.prize_type.deep_view(),
            r.prize_pool == self.prize_pool,
            r.custom_tags.deep_view() == self.custom_tags.deep_view(),
            r.version@ == self.version@,
            r.created_at == self.created_at,
            r.updated_at == self.updated_at,
            r.status@ == self.status@,
    {
        let (tc_base, tc_incr, tc_label) = match &self.time_control {
            Some(tc) => (tc.base_minutes, tc.increment_seconds, clone_opt_string(&tc.mode_label)),
            None => (0u32, 0u32, None),
        };
        TournamentDB {
            tournament_id: self.tournament_id.clone(),
            organiser_chain: self.organiser_chain.clone(),
            organiser_id: self.organiser_id.clone(),
            organiser_name: self.organiser_name.clone(),
            tournament_name: self.tournament_name.clone(),
            tournament_description: clone_opt_string(&self.tournament_description),
            tournament_format: self.tournament_format.clone(),
            match_type: self.match_type.clone(),
            game_mode: self.game_mode.clone(),
            time_control_base_minutes: tc_base,
            time_control_increment_seconds: tc_incr,
            time_control_mode_label: tc_label,
            max_players: self.max_players,
            min_players: self.min_players,
            starting_time: self.starting_time,
            end_time: self.end_time,
            prize_pool_description: clone_opt_string(&self.prize_pool_description),
            visibility: self.visibility.clone(),
            banner_image_url: clone_opt_string(&self.banner_image_url),
            sponsor_logo_url: clone_opt_string(&self.sponsor_logo_url),
            prize_type: clone_opt_string(&self.prize_type),
            prize_pool: self.prize_pool,
            custom_tags: clone_vec_string(&self.custom_tags),
            version: self.version.clone(),
            created_at: self.created_at,
            updated_at: self.updated_at,
            status: self.status.clone(),
        }
    }
}

/// The flattened tournament row written to the sink.
#[derive(Debug)]
pub struct TournamentDB {
    pub tournament_id: String,
    pub organiser_chain: String,
    pub organiser_id: String,
    pub organiser_name: String,
    pub tournament_name: String,
    pub tournament_description: Option<String>,
    pub tournament_format: String,
    pub match_type: String,
    pub game_mode: String,
    pub time_control_base_minutes: u32,
    pub time_control_increment_seconds: u32,
    pub time_control_mode_label: Option<String>,
    pub max_players: Option<u32>,
    pub min_players: Option<u32>,
    pub starting_time: usize,
    pub end_time: usize,
    pub prize_pool_description: Option<String>,
    pub visibility: String,
    pub banner_image_url: Option<String>,
    pub sponsor_logo_url: Option<String>,
    pub prize_type: Option<String>,
    pub prize_pool: u32,
    pub custom_tags: Vec<String>,
    pub version: String,
    pub created_at: usize,
    pub updated_at: usize,
    pub status: String,
}

impl TournamentDB {
    /// Name of the sink table holding tournaments.
    pub fn table_name() -> (r: &'static str)
        ensures
            r@ == "tournaments"@,
    {
        "tournaments"
    }

    /// Primary-key column of the tournament table.
    pub fn primary_key() -> (r: &'static str)
        ensures
            r@ == "tournament_id"@,
    {
        "tournament_id"
    }
}

/// Response shape of the tournament query.
#[derive(Debug)]
pub struct TournamentResponse {
    pub data: Tournaments,
}

/// Payload of [`TournamentResponse`].
#[derive(Debug)]
pub struct Tournaments {
    pub all_tournaments: Vec<Tournament>,
}

/// Query text fetching every tournament with its full metadata.
pub const QUERY_TOURNAMENTS: &'static str = r#"{ "query": "query { allTournaments { organiserChain organiserId organiserName tournamentId tournamentName tournamentFormat matchType gameMode timeControl { baseMinutes incrementSeconds modeLabel } bannerImageUrl sponsorLogoUrl maxPlayers minPlayers startingTime endTime prizeType prizePoolDescription prizePool visibility customTags version createdAt updatedAt status } }" }"#;

/// Opening of the participants query, up to the embedded tournament id.
pub const PARTICIPANTS_QUERY_PREFIX: &'static str = r#"{"query": "query { participants(tournamentId: \""#;

/// Closing of the participants query, after the embedded tournament id.
pub const PARTICIPANTS_QUERY_SUFFIX: &'static str = r#"\") { id player { name elo matches ath } } }"}"#;

/// Builds the query text fetching the participants of one tournament: the
/// fixed field selection around the embedded tournament id.
pub fn participants_query(tournament_id: &str) -> (r: String)
    ensures
        r@ == PARTICIPANTS_QUERY_PREFIX@ + tournament_id@ + PARTICIPANTS_QUERY_SUFFIX@,
{
    let mut r = PARTICIPANTS_QUERY_PREFIX.to_owned();
    r.append(tournament_id);
    r.append(PARTICIPANTS_QUERY_SUFFIX);
    r
}

/// Rating and record of one tournament participant.
#[derive(Clone, Debug)]
pub struct PlayerInfo {
    pub name: Option<String>,
    pub elo: u32,
    pub matches: u32,
    pub ath: u32,
}

/// Mathematical content of a [`PlayerInfo`].
#[verifier::ext_equal]
pub ghost struct PlayerInfoView {
    pub name: Option<Seq<char>>,
    pub elo: u32,
    pub matches: u32,
    pub ath: u32,
}

impl DeepView for PlayerInfo {
    type V = PlayerInfoView;

    open spec fn deep_view(&self) -> PlayerInfoView {
        PlayerInfoView {
            name: self.name.deep_view(),
            elo: self.elo,
            matches: self.matches,
            ath: self.ath,
        }
    }
}

/// One participant of a tournament, keyed by participant id.
#[derive(Clone, Debug)]
pub struct TournamentParticipant {
    pub id: String,
    pub player: PlayerInfo,
}

/// Mathematical content of a [`TournamentParticipant`].
#[verifier::ext_equal]
pub ghost struct TournamentParticipantView {
    pub id: Seq<char>,
    pub player: PlayerInfoView,
}

impl DeepView for TournamentParticipant {
    type V = TournamentParticipantView;

    open spec fn deep_view(&self) -> TournamentParticipantView {
        TournamentParticipantView { id: self.id@, player: self.player.deep_view() }
    }
}

impl TournamentParticipant {
    /// Content equality of two participants, stated over their views.
    pub fn content_eq(&self, other: &TournamentParticipant) -> (r: bool)
        ensures
            r == (self.deep_view() == other.deep_view()),
    {
        let r = self.id == other.id && opt_string_eq(&self.player.name, &other.player.name)
            && self.player.elo == other.player.elo && self.player.matches == other.player.matches
            && self.player.ath == other.player.ath;
        proof {
            if r {
                assert(self.player.deep_view() =~= other.player.deep_view());
                assert(self.deep_view() =~= other.deep_view());
            }
        }
        r
    }

    /// Flattens the participant into its sink row under the given
    /// tournament, every player field carried over unchanged.
    pub fn for_db(&self, tournament_id: String) -> (r: TournamentParticipantDB)
        ensures
            r.id@ == self.id@,
            r.tournament_id@ == tournament_id@,
            r.player_name.deep_view() == self.player.name.deep_view(),
            r.player_elo == self.player.elo,
            r.player_matches == self.player.matches,
            r.player_ath == self.player.ath,
    {
        TournamentParticipantDB {
            id: self.id.clone(),
            tournament_id,
            player_name: clone_opt_string(&self.player.name),
            player_elo: self.player.elo,
            player_matches: self.player.matches,
            player_ath: self.player.ath,
        }
    }
}

/// Response shape of the participants query.
#[derive(Debug)]
pub struct ParticipantResponse {
    pub data: Participants,
}

/// Payload of [`ParticipantResponse`].
#[derive(Debug)]
pub struct Participants {
    pub participants: Vec<TournamentParticipant>,
}

/// The flattened participant row written to the sink.
#[derive(Debug)]
pub struct TournamentParticipantDB {
    pub id: String,
    pub tournament_id: String,
    pub player_name: Option<String>,
    pub player_elo: u32,
    pub player_matches: u32,
    pub player_ath: u32,
}

impl TournamentParticipantDB {
    /// Name of the sink table holding tournament participants.
    pub fn table_name() -> (r: &'static str)
        ensures
            r@ == "tournament_participants"@,
    {
        "tournament_participants"
    }

    /// Primary-key column of the participant table.
    pub fn primary_key() -> (r: &'static str)
        ensures
            r@ == "id"@,
    {
        "id"
    }
}

} // verus!
