//! What holds of the library as a whole, stated over its models and proved.

use crate::client::{spec_conclude, LeagueClient, Outcome};
use crate::decode::{spec_field, Decode, Double};
use crate::errors::Error;
use crate::json::{json_document, json_quoted, JsonView};
use crate::platform::Platform;
use crate::request::{
    spec_all_quoted, spec_joined, spec_platform_path, spec_player_ids_body, spec_quoted, Method,
};
use crate::responses::{
    PlatformPopulationResponse, PlayerSkillResponse, PlayerStatResponse, PlayerTitle,
    PlayerTitlesResponse, PlaylistSkillResponse, PopulationResponse, RegionResponse,
    SkillLeaderboardResponse, StatLeaderboardResponse, StatValueForUserMultipleResponse,
    StatValueForUserResponse,
};
use vstd::prelude::*;

verus! {

/// No two platforms share a code.
pub proof fn lemma_codes_differ(first: Platform, second: Platform)
    requires
        first.spec_code() == second.spec_code(),
    ensures
        first == second,
{
    reveal_strlit("steam");
    reveal_strlit("xboxone");
    reveal_strlit("ps4");
    assert("xboxone"@.len() == 7);
    assert("ps4"@.len() == 3);
}

/// The code of a platform is made of lower-case letters and digits.
pub proof fn lemma_code_is_lower_case(platform: Platform, index: int)
    requires
        0 <= index < platform.spec_code().len(),
    ensures
        ({
            let letter = platform.spec_code()[index];
            ('a' <= letter && letter <= 'z') || ('0' <= letter && letter <= '9')
        }),
{
    reveal_strlit("steam");
    reveal_strlit("xboxone");
    reveal_strlit("ps4");
}

/// The path of a request about a platform depends on the platform through
/// its code alone.
pub proof fn lemma_path_follows_code(first: Platform, second: Platform, rest: Seq<char>)
    requires
        first.spec_code() == second.spec_code(),
    ensures
        spec_platform_path(first, rest) == spec_platform_path(second, rest),
{
}

/// The address of a request is decided by the origin and the path: two
/// clients of one origin, whatever their tokens, build for one path either
/// requests of the same address and verb or both none, whatever the bodies.
pub proof fn lemma_address_follows_origin_and_path(
    first: LeagueClient,
    second: LeagueClient,
    method: Method,
    path: Seq<char>,
    first_body: Option<Seq<char>>,
    second_body: Option<Seq<char>>,
)
    requires
        first.spec_origin() == second.spec_origin(),
    ensures
        match (
            first.spec_request(method, path, first_body),
            second.spec_request(method, path, second_body),
        ) {
            (Ok(one), Ok(other)) => {
                &&& one.url == first.spec_origin() + path
                &&& other.url == one.url
                &&& one.method == method
                &&& other.method == method
            },
            (Err(one), Err(other)) => one == Error::Internal && other == Error::Internal,
            _ => false,
        },
{
}

/// Every request presents the token of its client, as `Token <token>`.
pub proof fn lemma_request_presents_token(
    client: LeagueClient,
    method: Method,
    path: Seq<char>,
    body: Option<Seq<char>>,
)
    ensures
        client.spec_request(method, path, body) matches Ok(request) ==> request.authorization
            == "Token "@ + client.spec_token() && request.body == body,
{
}

/// Joining keeps the order and drops nothing: two lists one after the other
/// join to the join of the first, a comma, and the join of the second.
pub proof fn lemma_joined_in_order(first: Seq<Seq<char>>, second: Seq<Seq<char>>)
    requires
        first.len() > 0,
        second.len() > 0,
    ensures
        spec_joined(first + second) == spec_joined(first) + ","@ + spec_joined(second),
    decreases second.len(),
{
    let whole = first + second;
    if second.len() == 1 {
        assert(whole.drop_last() =~= first);
    } else {
        assert(whole.drop_last() =~= first + second.drop_last());
        lemma_joined_in_order(first, second.drop_last());
    }
}

/// The body of a query for one player holds the identifier of that player.
pub proof fn lemma_body_of_one(player_id: Seq<char>)
    requires
        json_quoted(player_id) is Some,
    ensures
        spec_player_ids_body(seq![player_id]) == Some(
            "{\"player_ids\":["@ + json_quoted(player_id).unwrap() + "]}"@,
        ),
{
}

/// The body of a query lists the identifiers in the order given, each as
/// often as it was given: one more identifier adds a comma and that
/// identifier to the end of the list, whether it occurred before or not.
pub proof fn lemma_body_lists_in_order(player_ids: Seq<Seq<char>>, player_id: Seq<char>)
    requires
        player_ids.len() > 0,
        spec_all_quoted(player_ids),
        json_quoted(player_id) is Some,
    ensures
        spec_quoted(player_ids.push(player_id)) == spec_quoted(player_ids).push(
            json_quoted(player_id).unwrap(),
        ),
        spec_player_ids_body(player_ids.push(player_id)) == Some(
            "{\"player_ids\":["@ + (spec_joined(spec_quoted(player_ids)) + ","@ + json_quoted(
                player_id,
            ).unwrap()) + "]}"@,
        ),
{
    let longer = player_ids.push(player_id);
    assert(spec_quoted(longer).drop_last() =~= spec_quoted(player_ids));
}

/// A body can be written only where each identifier can.
pub proof fn lemma_body_needs_every_identifier(player_ids: Seq<Seq<char>>, index: int)
    requires
        0 <= index < player_ids.len(),
        json_quoted(player_ids[index]) is None,
    ensures
        spec_player_ids_body(player_ids) is None,
{
}

/// A failed network call concludes with [`Error::Transport`], whatever
/// record was asked for.
pub proof fn lemma_failure_is_transport<T: Decode>()
    ensures
        spec_conclude::<T>(Outcome::Failed) == Err::<T::V, Error>(Error::Transport),
{
}

/// A refused request concludes with [`Error::Internal`], whatever record was
/// asked for.
pub proof fn lemma_refusal_is_internal<T: Decode>()
    ensures
        spec_conclude::<T>(Outcome::Refused) == Err::<T::V, Error>(Error::Internal),
{
}

/// A received body concludes with a record or with [`Error::Parse`], never
/// with another error: with [`Error::Parse`] where it is not JSON, and where
/// its JSON value has not the shape of the record.
pub proof fn lemma_body_is_record_or_parse<T: Decode>(body: Vec<u8>)
    ensures
        match spec_conclude::<T>(Outcome::Received(body)) {
            Ok(record) => {
                &&& json_document(body@) matches Some(json)
                &&& T::spec_decode(json) == Some(record)
            },
            Err(error) => {
                &&& error == Error::Parse
                &&& json_document(body@) matches Some(json) ==> T::spec_decode(json) is None
            },
        },
{
}

/// An optional member may be missing or `null`, and then stands for `None`;
/// a member that is there and not `null` has to have the shape of the type.
pub proof fn lemma_optional_member<T: Decode>(members: Map<Seq<char>, JsonView>, key: Seq<char>)
    ensures
        spec_field::<Option<T>>(JsonView::Object(members), key) == if !members.contains_key(key)
            || members[key] is Null {
            Some(None::<T::V>)
        } else {
            match T::spec_decode(members[key]) {
                Some(record) => Some(Some(record)),
                None => None,
            }
        },
{
}

/// A required member, be it a text, an integer, a double or a list, may
/// neither be missing nor `null`.
pub proof fn lemma_required_member<T: Decode>(members: Map<Seq<char>, JsonView>, key: Seq<char>)
    requires
        !members.contains_key(key) || members[key] is Null,
    ensures
        spec_field::<String>(JsonView::Object(members), key) is None,
        spec_field::<i64>(JsonView::Object(members), key) is None,
        spec_field::<Double>(JsonView::Object(members), key) is None,
        spec_field::<Vec<T>>(JsonView::Object(members), key) is None,
{
}

/// Nothing is a member of what is no object.
pub proof fn lemma_member_of_no_object<T: Decode>(json: JsonView, key: Seq<char>)
    requires
        !(json is Object),
    ensures
        spec_field::<T>(json, key) is None,
{
}

/// What stands for the skills of a player is an object that has each required
/// member; the record holds each member as the object gives it, and `None` for
/// an optional member that the object lacks.
pub proof fn lemma_player_skill_shape(json: JsonView)
    ensures
        match PlayerSkillResponse::spec_decode(json) {
            Some(record) => {
                &&& json matches JsonView::Object(members)
                &&& members.contains_key("user_name"@)
                &&& members.contains_key("player_skills"@)
                &&& spec_field::<Option<String>>(json, "user_id"@) == Some(record.user_id)
                &&& spec_field::<String>(json, "user_name"@) == Some(record.user_name)
                &&& spec_field::<Vec<PlaylistSkillResponse>>(json, "player_skills"@) == Some(
                    record.player_skills,
                )
                &&& !members.contains_key("user_id"@) ==> record.user_id is None
            },
            None => {
                ||| spec_field::<Option<String>>(json, "user_id"@) is None
                ||| spec_field::<String>(json, "user_name"@) is None
                ||| spec_field::<Vec<PlaylistSkillResponse>>(json, "player_skills"@) is None
            },
        },
{
}

/// What stands for the skill in a playlist is an object that has each required
/// member; the record holds each member as the object gives it, and `None` for
/// an optional member that the object lacks.
pub proof fn lemma_playlist_skill_shape(json: JsonView)
    ensures
        match PlaylistSkillResponse::spec_decode(json) {
            Some(record) => {
                &&& json matches JsonView::Object(members)
                &&& members.contains_key("playlist"@)
                &&& members.contains_key("mu"@)
                &&& members.contains_key("sigma"@)
                &&& spec_field::<i64>(json, "playlist"@) == Some(record.playlist)
                &&& spec_field::<Option<i64>>(json, "tier"@) == Some(record.tier)
                &&& spec_field::<Option<i64>>(json, "tier_max"@) == Some(record.tier_max)
                &&& spec_field::<Option<i64>>(json, "division"@) == Some(record.division)
                &&& spec_field::<Option<i64>>(json, "skill"@) == Some(record.skill)
                &&& spec_field::<Double>(json, "mu"@) == Some(record.mu)
                &&& spec_field::<Double>(json, "sigma"@) == Some(record.sigma)
                &&& spec_field::<Option<i64>>(json, "win_streak"@) == Some(record.win_streak)
                &&& spec_field::<Option<i64>>(json, "matches_played"@) == Some(
                    record.matches_played,
                )
                &&& !members.contains_key("tier"@) ==> record.tier is None
                &&& !members.contains_key("tier_max"@) ==> record.tier_max is None
                &&& !members.contains_key("division"@) ==> record.division is None
                &&& !members.contains_key("skill"@) ==> record.skill is None
                &&& !members.contains_key("win_streak"@) ==> record.win_streak is None
                &&& !members.contains_key("matches_played"@) ==> record.matches_played is None
            },
            None => {
                ||| spec_field::<i64>(json, "playlist"@) is None
                ||| spec_field::<Option<i64>>(json, "tier"@) is None
                ||| spec_field::<Option<i64>>(json, "tier_max"@) is None
                ||| spec_field::<Option<i64>>(json, "division"@) is None
                ||| spec_field::<Option<i64>>(json, "skill"@) is None
                ||| spec_field::<Double>(json, "mu"@) is None
                ||| spec_field::<Double>(json, "sigma"@) is None
                ||| spec_field::<Option<i64>>(json, "win_streak"@) is None
                ||| spec_field::<Option<i64>>(json, "matches_played"@) is None
            },
        },
{
}

/// What stands for the titles of a player is an object that has each required
/// member; the record holds each member as the object gives it, and `None` for
/// an optional member that the object lacks.
pub proof fn lemma_player_titles_shape(json: JsonView)
    ensures
        match PlayerTitlesResponse::spec_decode(json) {
            Some(record) => {
                &&& json matches JsonView::Object(members)
                &&& members.contains_key("titles"@)
                &&& spec_field::<Vec<PlayerTitle>>(json, "titles"@) == Some(record.titles)
            },
            None => {
                ||| spec_field::<Vec<PlayerTitle>>(json, "titles"@) is None
            },
        },
{
}

/// What stands for the population is an object that has each required member;
/// the record holds each member as the object gives it, and `None` for an
/// optional member that the object lacks.
pub proof fn lemma_population_shape(json: JsonView)
    ensures
        match PopulationResponse::spec_decode(json) {
            Some(record) => {
                &&& json matches JsonView::Object(members)
                &&& members.contains_key("XboxOne"@)
                &&& members.contains_key("Switch"@)
                &&& members.contains_key("Steam"@)
                &&& members.contains_key("PS4"@)
                &&& spec_field::<Vec<PlatformPopulationResponse>>(json, "XboxOne"@) == Some(
                    record.xbox_one,
                )
                &&& spec_field::<Vec<PlatformPopulationResponse>>(json, "Switch"@) == Some(
                    record.switch,
                )
                &&& spec_field::<Vec<PlatformPopulationResponse>>(json, "Steam"@) == Some(
                    record.steam,
                )
                &&& spec_field::<Vec<PlatformPopulationResponse>>(json, "PS4"@) == Some(record.ps4)
            },
            None => {
                ||| spec_field::<Vec<PlatformPopulationResponse>>(json, "XboxOne"@) is None
                ||| spec_field::<Vec<PlatformPopulationResponse>>(json, "Switch"@) is None
                ||| spec_field::<Vec<PlatformPopulationResponse>>(json, "Steam"@) is None
                ||| spec_field::<Vec<PlatformPopulationResponse>>(json, "PS4"@) is None
            },
        },
{
}

/// What stands for the population of a playlist is an object that has each
/// required member; the record holds each member as the object gives it, and
/// `None` for an optional member that the object lacks.
pub proof fn lemma_platform_population_shape(json: JsonView)
    ensures
        match PlatformPopulationResponse::spec_decode(json) {
            Some(record) => {
                &&& json matches JsonView::Object(members)
                &&& members.contains_key("PlaylistID"@)
                &&& members.contains_key("NumPlayers"@)
                &&& spec_field::<i64>(json, "PlaylistID"@) == Some(record.playlist)
                &&& spec_field::<i64>(json, "NumPlayers"@) == Some(record.num_players)
            },
            None => {
                ||| spec_field::<i64>(json, "PlaylistID"@) is None
                ||| spec_field::<i64>(json, "NumPlayers"@) is None
            },
        },
{
}

/// What stands for a region is an object that has each required member; the
/// record holds each member as the object gives it, and `None` for an optional
/// member that the object lacks.
pub proof fn lemma_region_shape(json: JsonView)
    ensures
        match RegionResponse::spec_decode(json) {
            Some(record) => {
                &&& json matches JsonView::Object(members)
                &&& members.contains_key("platforms"@)
                &&& members.contains_key("region"@)
                &&& spec_field::<String>(json, "platforms"@) == Some(record.platforms)
                &&& spec_field::<String>(json, "region"@) == Some(record.region)
            },
            None => {
                ||| spec_field::<String>(json, "platforms"@) is None
                ||| spec_field::<String>(json, "region"@) is None
            },
        },
{
}

/// What stands for a rank of a skill leaderboard is an object that has each
/// required member; the record holds each member as the object gives it, and
/// `None` for an optional member that the object lacks.
pub proof fn lemma_skill_leaderboard_shape(json: JsonView)
    ensures
        match SkillLeaderboardResponse::spec_decode(json) {
            Some(record) => {
                &&& json matches JsonView::Object(members)
                &&& members.contains_key("user_name"@)
                &&& members.contains_key("tier"@)
                &&& members.contains_key("skill"@)
                &&& spec_field::<Option<String>>(json, "user_id"@) == Some(record.user_id)
                &&& spec_field::<String>(json, "user_name"@) == Some(record.user_name)
                &&& spec_field::<i64>(json, "tier"@) == Some(record.tier)
                &&& spec_field::<i64>(json, "skill"@) == Some(record.skill)
                &&& !members.contains_key("user_id"@) ==> record.user_id is None
            },
            None => {
                ||| spec_field::<Option<String>>(json, "user_id"@) is None
                ||| spec_field::<String>(json, "user_name"@) is None
                ||| spec_field::<i64>(json, "tier"@) is None
                ||| spec_field::<i64>(json, "skill"@) is None
            },
        },
{
}

/// What stands for the leaderboard of a stat is an object that has each
/// required member; the record holds each member as the object gives it, and
/// `None` for an optional member that the object lacks.
pub proof fn lemma_stat_leaderboard_shape(json: JsonView)
    ensures
        match StatLeaderboardResponse::spec_decode(json) {
            Some(record) => {
                &&& json matches JsonView::Object(members)
                &&& members.contains_key("stats"@)
                &&& members.contains_key("stat_type"@)
                &&& spec_field::<Vec<PlayerStatResponse>>(json, "stats"@) == Some(record.stats)
                &&& spec_field::<String>(json, "stat_type"@) == Some(record.stat_type)
            },
            None => {
                ||| spec_field::<Vec<PlayerStatResponse>>(json, "stats"@) is None
                ||| spec_field::<String>(json, "stat_type"@) is None
            },
        },
{
}

/// What stands for the tallies of a player is an object that has each required
/// member; the record holds each member as the object gives it, and `None` for
/// an optional member that the object lacks.
pub proof fn lemma_player_stat_shape(json: JsonView)
    ensures
        match PlayerStatResponse::spec_decode(json) {
            Some(record) => {
                &&& json matches JsonView::Object(members)
                &&& members.contains_key("user_name"@)
                &&& spec_field::<Option<String>>(json, "user_id"@) == Some(record.user_id)
                &&& spec_field::<String>(json, "user_name"@) == Some(record.user_name)
                &&& spec_field::<Option<i64>>(json, "assists"@) == Some(record.assists)
                &&& spec_field::<Option<i64>>(json, "goals"@) == Some(record.goals)
                &&& spec_field::<Option<i64>>(json, "mvps"@) == Some(record.mvps)
                &&& spec_field::<Option<i64>>(json, "saves"@) == Some(record.saves)
                &&& spec_field::<Option<i64>>(json, "shots"@) == Some(record.shots)
                &&& spec_field::<Option<i64>>(json, "wins"@) == Some(record.wins)
                &&& !members.contains_key("user_id"@) ==> record.user_id is None
                &&& !members.contains_key("assists"@) ==> record.assists is None
                &&& !members.contains_key("goals"@) ==> record.goals is None
                &&& !members.contains_key("mvps"@) ==> record.mvps is None
                &&& !members.contains_key("saves"@) ==> record.saves is None
                &&& !members.contains_key("shots"@) ==> record.shots is None
                &&& !members.contains_key("wins"@) ==> record.wins is None
            },
            None => {
                ||| spec_field::<Option<String>>(json, "user_id"@) is None
                ||| spec_field::<String>(json, "user_name"@) is None
                ||| spec_field::<Option<i64>>(json, "assists"@) is None
                ||| spec_field::<Option<i64>>(json, "goals"@) is None
                ||| spec_field::<Option<i64>>(json, "mvps"@) is None
                ||| spec_field::<Option<i64>>(json, "saves"@) is None
                ||| spec_field::<Option<i64>>(json, "shots"@) is None
                ||| spec_field::<Option<i64>>(json, "wins"@) is None
            },
        },
{
}

/// What stands for the value of a stat for a player is an object that has each
/// required member; the record holds each member as the object gives it, and
/// `None` for an optional member that the object lacks.
pub proof fn lemma_stat_value_for_user_shape(json: JsonView)
    ensures
        match StatValueForUserResponse::spec_decode(json) {
            Some(record) => {
                &&& json matches JsonView::Object(members)
                &&& members.contains_key("stat_type"@)
                &&& members.contains_key("value"@)
                &&& spec_field::<Option<String>>(json, "user_id"@) == Some(record.user_id)
                &&& spec_field::<Option<String>>(json, "user_name"@) == Some(record.user_name)
                &&& spec_field::<String>(json, "stat_type"@) == Some(record.stat_type)
                &&& spec_field::<String>(json, "value"@) == Some(record.value)
                &&& !members.contains_key("user_id"@) ==> record.user_id is None
                &&& !members.contains_key("user_name"@) ==> record.user_name is None
            },
            None => {
                ||| spec_field::<Option<String>>(json, "user_id"@) is None
                ||| spec_field::<Option<String>>(json, "user_name"@) is None
                ||| spec_field::<String>(json, "stat_type"@) is None
                ||| spec_field::<String>(json, "value"@) is None
            },
        },
{
}

/// What stands for the value of a stat for one of several players is an object
/// that has each required member; the record holds each member as the object
/// gives it, and `None` for an optional member that the object lacks.
pub proof fn lemma_stat_value_for_user_multiple_shape(json: JsonView)
    ensures
        match StatValueForUserMultipleResponse::spec_decode(json) {
            Some(record) => {
                &&& json matches JsonView::Object(members)
                &&& members.contains_key("stat_type"@)
                &&& members.contains_key("value"@)
                &&& spec_field::<Option<String>>(json, "user_id"@) == Some(record.user_id)
                &&& spec_field::<Option<String>>(json, "user_name"@) == Some(record.user_name)
                &&& spec_field::<String>(json, "stat_type"@) == Some(record.stat_type)
                &&& spec_field::<i64>(json, "value"@) == Some(record.value)
                &&& !members.contains_key("user_id"@) ==> record.user_id is None
                &&& !members.contains_key("user_name"@) ==> record.user_name is None
            },
            None => {
                ||| spec_field::<Option<String>>(json, "user_id"@) is None
                ||| spec_field::<Option<String>>(json, "user_name"@) is None
                ||| spec_field::<String>(json, "stat_type"@) is None
                ||| spec_field::<i64>(json, "value"@) is None
            },
        },
{
}

} // verus!
