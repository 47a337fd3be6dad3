//! The records that the service answers with.
//!
//! Each record is read from a JSON object. A member that the record holds as
//! an `Option` may be missing or `null`; every other member is required, and
//! members that the record does not know are ignored.

use crate::decode::{field, spec_field, Decode, Double};
use crate::errors::Error;
use crate::json::JsonView;
use vstd::prelude::*;

verus! {

pub type PlayerId = String;

pub type PlayerTitle = String;

/// The skills of one player, playlist by playlist.
#[derive(Debug, PartialEq, Eq)]
pub struct PlayerSkillResponse {
    pub user_id: Option<String>,
    pub user_name: String,
    pub player_skills: Vec<PlaylistSkillResponse>,
}

/// The model of a [`PlayerSkillResponse`].
pub struct PlayerSkillView {
    pub user_id: Option<Seq<char>>,
    pub user_name: Seq<char>,
    pub player_skills: Seq<PlaylistSkillResponse>,
}

impl DeepView for PlayerSkillResponse {
    type V = PlayerSkillView;

    open spec fn deep_view(&self) -> PlayerSkillView {
        PlayerSkillView {
            user_id: self.user_id.deep_view(),
            user_name: self.user_name.deep_view(),
            player_skills: self.player_skills.deep_view(),
        }
    }
}

impl Decode for PlayerSkillResponse {
    open spec fn spec_decode(json: JsonView) -> Option<PlayerSkillView> {
        match (
            spec_field::<Option<String>>(json, "user_id"@),
            spec_field::<String>(json, "user_name"@),
            spec_field::<Vec<PlaylistSkillResponse>>(json, "player_skills"@),
        ) {
            (Some(user_id), Some(user_name), Some(player_skills)) => Some(
                PlayerSkillView { user_id, user_name, player_skills },
            ),
            _ => None,
        }
    }

    open spec fn spec_absent() -> Option<PlayerSkillView> {
        None
    }

    fn decode(value: &serde_json::Value) -> (decoded: Result<PlayerSkillResponse, Error>) {
        let user_id = field::<Option<String>>(value, "user_id")?;
        let user_name = field::<String>(value, "user_name")?;
        let player_skills = field::<Vec<PlaylistSkillResponse>>(value, "player_skills")?;
        Ok(PlayerSkillResponse { user_id, user_name, player_skills })
    }

    fn absent() -> (decoded: Result<PlayerSkillResponse, Error>) {
        Err(Error::Parse)
    }
}

/// The skill of a player in one playlist. `mu` and `sigma` are the mean and
/// the uncertainty of the skill rating.
#[derive(Debug, PartialEq, Eq)]
pub struct PlaylistSkillResponse {
    pub playlist: i64,
    pub tier: Option<i64>,
    pub tier_max: Option<i64>,
    pub division: Option<i64>,
    pub skill: Option<i64>,
    pub mu: Double,
    pub sigma: Double,
    pub win_streak: Option<i64>,
    pub matches_played: Option<i64>,
}

impl DeepView for PlaylistSkillResponse {
    type V = PlaylistSkillResponse;

    open spec fn deep_view(&self) -> PlaylistSkillResponse {
        *self
    }
}

impl Decode for PlaylistSkillResponse {
    open spec fn spec_decode(json: JsonView) -> Option<PlaylistSkillResponse> {
        match (
            spec_field::<i64>(json, "playlist"@),
            spec_field::<Option<i64>>(json, "tier"@),
            spec_field::<Option<i64>>(json, "tier_max"@),
            spec_field::<Option<i64>>(json, "division"@),
            spec_field::<Option<i64>>(json, "skill"@),
            spec_field::<Double>(json, "mu"@),
            spec_field::<Double>(json, "sigma"@),
            spec_field::<Option<i64>>(json, "win_streak"@),
            spec_field::<Option<i64>>(json, "matches_played"@),
        ) {
            (
                Some(playlist),
                Some(tier),
                Some(tier_max),
                Some(division),
                Some(skill),
                Some(mu),
                Some(sigma),
                Some(win_streak),
                Some(matches_played),
            ) => Some(
                PlaylistSkillResponse {
                    playlist,
                    tier,
                    tier_max,
                    division,
                    skill,
                    mu,
                    sigma,
                    win_streak,
                    matches_played,
                },
            ),
            _ => None,
        }
    }

    open spec fn spec_absent() -> Option<PlaylistSkillResponse> {
        None
    }

    fn decode(value: &serde_json::Value) -> (decoded: Result<PlaylistSkillResponse, Error>) {
        let playlist = field::<i64>(value, "playlist")?;
        let tier = field::<Option<i64>>(value, "tier")?;
        let tier_max = field::<Option<i64>>(value, "tier_max")?;
        let division = field::<Option<i64>>(value, "division")?;
        let skill = field::<Option<i64>>(value, "skill")?;
        let mu = field::<Double>(value, "mu")?;
        let sigma = field::<Double>(value, "sigma")?;
        let win_streak = field::<Option<i64>>(value, "win_streak")?;
        let matches_played = field::<Option<i64>>(value, "matches_played")?;
        Ok(
            PlaylistSkillResponse {
                playlist,
                tier,
                tier_max,
                division,
                skill,
                mu,
                sigma,
                win_streak,
                matches_played,
            },
        )
    }

    fn absent() -> (decoded: Result<PlaylistSkillResponse, Error>) {
        Err(Error::Parse)
    }
}

/// The titles of one player, in the order of the answer.
#[derive(Debug, PartialEq, Eq)]
pub struct PlayerTitlesResponse {
    pub titles: Vec<PlayerTitle>,
}

/// The model of a [`PlayerTitlesResponse`].
pub struct PlayerTitlesView {
    pub titles: Seq<Seq<char>>,
}

impl DeepView for PlayerTitlesResponse {
    type V = PlayerTitlesView;

    open spec fn deep_view(&self) -> PlayerTitlesView {
        PlayerTitlesView { titles: self.titles.deep_view() }
    }
}

impl Decode for PlayerTitlesResponse {
    open spec fn spec_decode(json: JsonView) -> Option<PlayerTitlesView> {
        match spec_field::<Vec<PlayerTitle>>(json, "titles"@) {
            Some(titles) => Some(PlayerTitlesView { titles }),
            None => None,
        }
    }

    open spec fn spec_absent() -> Option<PlayerTitlesView> {
        None
    }

    fn decode(value: &serde_json::Value) -> (decoded: Result<PlayerTitlesResponse, Error>) {
        let titles = field::<Vec<PlayerTitle>>(value, "titles")?;
        Ok(PlayerTitlesResponse { titles })
    }

    fn absent() -> (decoded: Result<PlayerTitlesResponse, Error>) {
        Err(Error::Parse)
    }
}

/// The number of players per playlist, for each of the four platforms that the
/// service counts.
#[derive(Debug, PartialEq, Eq)]
pub struct PopulationResponse {
    /// The member `XboxOne`.
    pub xbox_one: Vec<PlatformPopulationResponse>,
    /// The member `Switch`.
    pub switch: Vec<PlatformPopulationResponse>,
    /// The member `Steam`.
    pub steam: Vec<PlatformPopulationResponse>,
    /// The member `PS4`.
    pub ps4: Vec<PlatformPopulationResponse>,
}

/// The model of a [`PopulationResponse`].
pub struct PopulationView {
    pub xbox_one: Seq<PlatformPopulationResponse>,
    pub switch: Seq<PlatformPopulationResponse>,
    pub steam: Seq<PlatformPopulationResponse>,
    pub ps4: Seq<PlatformPopulationResponse>,
}

impl DeepView for PopulationResponse {
    type V = PopulationView;

    open spec fn deep_view(&self) -> PopulationView {
        PopulationView {
            xbox_one: self.xbox_one.deep_view(),
            switch: self.switch.deep_view(),
            steam: self.steam.deep_view(),
            ps4: self.ps4.deep_view(),
        }
    }
}

impl Decode for PopulationResponse {
    open spec fn spec_decode(json: JsonView) -> Option<PopulationView> {
        match (
            spec_field::<Vec<PlatformPopulationResponse>>(json, "XboxOne"@),
            spec_field::<Vec<PlatformPopulationResponse>>(json, "Switch"@),
            spec_field::<Vec<PlatformPopulationResponse>>(json, "Steam"@),
            spec_field::<Vec<PlatformPopulationResponse>>(json, "PS4"@),
        ) {
            (Some(xbox_one), Some(switch), Some(steam), Some(ps4)) => Some(
                PopulationView { xbox_one, switch, steam, ps4 },
            ),
            _ => None,
        }
    }

    open spec fn spec_absent() -> Option<PopulationView> {
        None
    }

    fn decode(value: &serde_json::Value) -> (decoded: Result<PopulationResponse, Error>) {
        let xbox_one = field::<Vec<PlatformPopulationResponse>>(value, "XboxOne")?;
        let switch = field::<Vec<PlatformPopulationResponse>>(value, "Switch")?;
        let steam = field::<Vec<PlatformPopulationResponse>>(value, "Steam")?;
        let ps4 = field::<Vec<PlatformPopulationResponse>>(value, "PS4")?;
        Ok(PopulationResponse { xbox_one, switch, steam, ps4 })
    }

    fn absent() -> (decoded: Result<PopulationResponse, Error>) {
        Err(Error::Parse)
    }
}

/// The number of players in one playlist.
#[derive(Debug, PartialEq, Eq)]
pub struct PlatformPopulationResponse {
    /// The member `PlaylistID`.
    pub playlist: i64,
    /// The member `NumPlayers`.
    pub num_players: i64,
}

impl DeepView for PlatformPopulationResponse {
    type V = PlatformPopulationResponse;

    open spec fn deep_view(&self) -> PlatformPopulationResponse {
        *self
    }
}

impl Decode for PlatformPopulationResponse {
    open spec fn spec_decode(json: JsonView) -> Option<PlatformPopulationResponse> {
        match (
            spec_field::<i64>(json, "PlaylistID"@),
            spec_field::<i64>(json, "NumPlayers"@),
        ) {
            (Some(playlist), Some(num_players)) => Some(
                PlatformPopulationResponse { playlist, num_players },
            ),
            _ => None,
        }
    }

    open spec fn spec_absent() -> Option<PlatformPopulationResponse> {
        None
    }

    fn decode(value: &serde_json::Value) -> (decoded: Result<PlatformPopulationResponse, Error>) {
        let playlist = field::<i64>(value, "PlaylistID")?;
        let num_players = field::<i64>(value, "NumPlayers")?;
        Ok(PlatformPopulationResponse { playlist, num_players })
    }

    fn absent() -> (decoded: Result<PlatformPopulationResponse, Error>) {
        Err(Error::Parse)
    }
}

/// A region and the platforms that it serves. The region is free text.
#[derive(Debug, PartialEq, Eq)]
pub struct RegionResponse {
    pub platforms: String,
    pub region: String,
}

/// The model of a [`RegionResponse`].
pub struct RegionView {
    pub platforms: Seq<char>,
    pub region: Seq<char>,
}

impl DeepView for RegionResponse {
    type V = RegionView;

    open spec fn deep_view(&self) -> RegionView {
        RegionView {
            platforms: self.platforms.deep_view(),
            region: self.region.deep_view(),
        }
    }
}

impl Decode for RegionResponse {
    open spec fn spec_decode(json: JsonView) -> Option<RegionView> {
        match (
            spec_field::<String>(json, "platforms"@),
            spec_field::<String>(json, "region"@),
        ) {
            (Some(platforms), Some(region)) => Some(RegionView { platforms, region }),
            _ => None,
        }
    }

    open spec fn spec_absent() -> Option<RegionView> {
        None
    }

    fn decode(value: &serde_json::Value) -> (decoded: Result<RegionResponse, Error>) {
        let platforms = field::<String>(value, "platforms")?;
        let region = field::<String>(value, "region")?;
        Ok(RegionResponse { platforms, region })
    }

    fn absent() -> (decoded: Result<RegionResponse, Error>) {
        Err(Error::Parse)
    }
}

/// One rank of a skill leaderboard.
#[derive(Debug, PartialEq, Eq)]
pub struct SkillLeaderboardResponse {
    pub user_id: Option<String>,
    pub user_name: String,
    pub tier: i64,
    pub skill: i64,
}

/// The model of a [`SkillLeaderboardResponse`].
pub struct SkillLeaderboardView {
    pub user_id: Option<Seq<char>>,
    pub user_name: Seq<char>,
    pub tier: i64,
    pub skill: i64,
}

impl DeepView for SkillLeaderboardResponse {
    type V = SkillLeaderboardView;

    open spec fn deep_view(&self) -> SkillLeaderboardView {
        SkillLeaderboardView {
            user_id: self.user_id.deep_view(),
            user_name: self.user_name.deep_view(),
            tier: self.tier.deep_view(),
            skill: self.skill.deep_view(),
        }
    }
}

impl Decode for SkillLeaderboardResponse {
    open spec fn spec_decode(json: JsonView) -> Option<SkillLeaderboardView> {
        match (
            spec_field::<Option<String>>(json, "user_id"@),
            spec_field::<String>(json, "user_name"@),
            spec_field::<i64>(json, "tier"@),
            spec_field::<i64>(json, "skill"@),
        ) {
            (Some(user_id), Some(user_name), Some(tier), Some(skill)) => Some(
                SkillLeaderboardView { user_id, user_name, tier, skill },
            ),
            _ => None,
        }
    }

    open spec fn spec_absent() -> Option<SkillLeaderboardView> {
        None
    }

    fn decode(value: &serde_json::Value) -> (decoded: Result<SkillLeaderboardResponse, Error>) {
        let user_id = field::<Option<String>>(value, "user_id")?;
        let user_name = field::<String>(value, "user_name")?;
        let tier = field::<i64>(value, "tier")?;
        let skill = field::<i64>(value, "skill")?;
        Ok(SkillLeaderboardResponse { user_id, user_name, tier, skill })
    }

    fn absent() -> (decoded: Result<SkillLeaderboardResponse, Error>) {
        Err(Error::Parse)
    }
}

/// The leaderboard of one stat.
#[derive(Debug, PartialEq, Eq)]
pub struct StatLeaderboardResponse {
    pub stats: Vec<PlayerStatResponse>,
    pub stat_type: String,
}

/// The model of a [`StatLeaderboardResponse`].
pub struct StatLeaderboardView {
    pub stats: Seq<PlayerStatView>,
    pub stat_type: Seq<char>,
}

impl DeepView for StatLeaderboardResponse {
    type V = StatLeaderboardView;

    open spec fn deep_view(&self) -> StatLeaderboardView {
        StatLeaderboardView {
            stats: self.stats.deep_view(),
            stat_type: self.stat_type.deep_view(),
        }
    }
}

impl Decode for StatLeaderboardResponse {
    open spec fn spec_decode(json: JsonView) -> Option<StatLeaderboardView> {
        match (
            spec_field::<Vec<PlayerStatResponse>>(json, "stats"@),
            spec_field::<String>(json, "stat_type"@),
        ) {
            (Some(stats), Some(stat_type)) => Some(StatLeaderboardView { stats, stat_type }),
            _ => None,
        }
    }

    open spec fn spec_absent() -> Option<StatLeaderboardView> {
        None
    }

    fn decode(value: &serde_json::Value) -> (decoded: Result<StatLeaderboardResponse, Error>) {
        let stats = field::<Vec<PlayerStatResponse>>(value, "stats")?;
        let stat_type = field::<String>(value, "stat_type")?;
        Ok(StatLeaderboardResponse { stats, stat_type })
    }

    fn absent() -> (decoded: Result<StatLeaderboardResponse, Error>) {
        Err(Error::Parse)
    }
}

/// The tallies of one player on a stat leaderboard.
#[derive(Debug, PartialEq, Eq)]
pub struct PlayerStatResponse {
    pub user_id: Option<String>,
    pub user_name: String,
    pub assists: Option<i64>,
    pub goals: Option<i64>,
    pub mvps: Option<i64>,
    pub saves: Option<i64>,
    pub shots: Option<i64>,
    pub wins: Option<i64>,
}

/// The model of a [`PlayerStatResponse`].
pub struct PlayerStatView {
    pub user_id: Option<Seq<char>>,
    pub user_name: Seq<char>,
    pub assists: Option<i64>,
    pub goals: Option<i64>,
    pub mvps: Option<i64>,
    pub saves: Option<i64>,
    pub shots: Option<i64>,
    pub wins: Option<i64>,
}

impl DeepView for PlayerStatResponse {
    type V = PlayerStatView;

    open spec fn deep_view(&self) -> PlayerStatView {
        PlayerStatView {
            user_id: self.user_id.deep_view(),
            user_name: self.user_name.deep_view(),
            assists: self.assists.deep_view(),
            goals: self.goals.deep_view(),
            mvps: self.mvps.deep_view(),
            saves: self.saves.deep_view(),
            shots: self.shots.deep_view(),
            wins: self.wins.deep_view(),
        }
    }
}

impl Decode for PlayerStatResponse {
    open spec fn spec_decode(json: JsonView) -> Option<PlayerStatView> {
        match (
            spec_field::<Option<String>>(json, "user_id"@),
            spec_field::<String>(json, "user_name"@),
            spec_field::<Option<i64>>(json, "assists"@),
            spec_field::<Option<i64>>(json, "goals"@),
            spec_field::<Option<i64>>(json, "mvps"@),
            spec_field::<Option<i64>>(json, "saves"@),
            spec_field::<Option<i64>>(json, "shots"@),
            spec_field::<Option<i64>>(json, "wins"@),
        ) {
            (
                Some(user_id),
                Some(user_name),
                Some(assists),
                Some(goals),
                Some(mvps),
                Some(saves),
                Some(shots),
                Some(wins),
            ) => Some(
                PlayerStatView { user_id, user_name, assists, goals, mvps, saves, shots, wins },
            ),
            _ => None,
        }
    }

    open spec fn spec_absent() -> Option<PlayerStatView> {
        None
    }

    fn decode(value: &serde_json::Value) -> (decoded: Result<PlayerStatResponse, Error>) {
        let user_id = field::<Option<String>>(value, "user_id")?;
        let user_name = field::<String>(value, "user_name")?;
        let assists = field::<Option<i64>>(value, "assists")?;
        let goals = field::<Option<i64>>(value, "goals")?;
        let mvps = field::<Option<i64>>(value, "mvps")?;
        let saves = field::<Option<i64>>(value, "saves")?;
        let shots = field::<Option<i64>>(value, "shots")?;
        let wins = field::<Option<i64>>(value, "wins")?;
        Ok(PlayerStatResponse { user_id, user_name, assists, goals, mvps, saves, shots, wins })
    }

    fn absent() -> (decoded: Result<PlayerStatResponse, Error>) {
        Err(Error::Parse)
    }
}

/// The value of one stat for one player, as the service answers a query for a
/// single player: the value is text.
#[derive(Debug, PartialEq, Eq)]
pub struct StatValueForUserResponse {
    pub user_id: Option<String>,
    pub user_name: Option<String>,
    pub stat_type: String,
    pub value: String,
}

/// The model of a [`StatValueForUserResponse`].
pub struct StatValueForUserView {
    pub user_id: Option<Seq<char>>,
    pub user_name: Option<Seq<char>>,
    pub stat_type: Seq<char>,
    pub value: Seq<char>,
}

impl DeepView for StatValueForUserResponse {
    type V = StatValueForUserView;

    open spec fn deep_view(&self) -> StatValueForUserView {
        StatValueForUserView {
            user_id: self.user_id.deep_view(),
            user_name: self.user_name.deep_view(),
            stat_type: self.stat_type.deep_view(),
            value: self.value.deep_view(),
        }
    }
}

impl Decode for StatValueForUserResponse {
    open spec fn spec_decode(json: JsonView) -> Option<StatValueForUserView> {
        match (
            spec_field::<Option<String>>(json, "user_id"@),
            spec_field::<Option<String>>(json, "user_name"@),
            spec_field::<String>(json, "stat_type"@),
            spec_field::<String>(json, "value"@),
        ) {
            (Some(user_id), Some(user_name), Some(stat_type), Some(value)) => Some(
                StatValueForUserView { user_id, user_name, stat_type, value },
            ),
            _ => None,
        }
    }

    open spec fn spec_absent() -> Option<StatValueForUserView> {
        None
    }

    fn decode(value: &serde_json::Value) -> (decoded: Result<StatValueForUserResponse, Error>) {
        let user_id = field::<Option<String>>(value, "user_id")?;
        let user_name = field::<Option<String>>(value, "user_name")?;
        let stat_type = field::<String>(value, "stat_type")?;
        let value = field::<String>(value, "value")?;
        Ok(StatValueForUserResponse { user_id, user_name, stat_type, value })
    }

    fn absent() -> (decoded: Result<StatValueForUserResponse, Error>) {
        Err(Error::Parse)
    }
}

/// The value of one stat for one player, as the service answers a query for
/// several players: the value is an integer.
#[derive(Debug, PartialEq, Eq)]
pub struct StatValueForUserMultipleResponse {
    pub user_id: Option<String>,
    pub user_name: Option<String>,
    pub stat_type: String,
    pub value: i64,
}

/// The model of a [`StatValueForUserMultipleResponse`].
pub struct StatValueForUserMultipleView {
    pub user_id: Option<Seq<char>>,
    pub user_name: Option<Seq<char>>,
    pub stat_type: Seq<char>,
    pub value: i64,
}

impl DeepView for StatValueForUserMultipleResponse {
    type V = StatValueForUserMultipleView;

    open spec fn deep_view(&self) -> StatValueForUserMultipleView {
        StatValueForUserMultipleView {
            user_id: self.user_id.deep_view(),
            user_name: self.user_name.deep_view(),
            stat_type: self.stat_type.deep_view(),
            value: self.value.deep_view(),
        }
    }
}

impl Decode for StatValueForUserMultipleResponse {
    open spec fn spec_decode(json: JsonView) -> Option<StatValueForUserMultipleView> {
        match (
            spec_field::<Option<String>>(json, "user_id"@),
            spec_field::<Option<String>>(json, "user_name"@),
            spec_field::<String>(json, "stat_type"@),
            spec_field::<i64>(json, "value"@),
        ) {
            (Some(user_id), Some(user_name), Some(stat_type), Some(value)) => Some(
                StatValueForUserMultipleView { user_id, user_name, stat_type, value },
            ),
            _ => None,
        }
    }

    open spec fn spec_absent() -> Option<StatValueForUserMultipleView> {
        None
    }

    fn decode(value: &serde_json::Value) -> (decoded: Result<
        StatValueForUserMultipleResponse,
        Error,
    >) {
        let user_id = field::<Option<String>>(value, "user_id")?;
        let user_name = field::<Option<String>>(value, "user_name")?;
        let stat_type = field::<String>(value, "stat_type")?;
        let value = field::<i64>(value, "value")?;
        Ok(StatValueForUserMultipleResponse { user_id, user_name, stat_type, value })
    }

    fn absent() -> (decoded: Result<StatValueForUserMultipleResponse, Error>) {
        Err(Error::Parse)
    }
}

} // verus!
