//! The requests that the service understands: their paths and their bodies.

use crate::json::{json_quoted, quote};
use crate::platform::Platform;
use crate::responses::PlayerId;
use vstd::prelude::*;

verus! {

/// The verb of a request.
#[derive(Clone, Copy, Debug, PartialEq, Eq, Structural)]
pub enum Method {
    Get,
    Post,
}

/// A request, ready to be sent.
#[derive(Debug, PartialEq, Eq)]
pub struct Request {
    pub method: Method,
    /// The absolute address of the request.
    pub url: String,
    /// The value of the `Authorization` header.
    pub authorization: String,
    /// The JSON text to send as the payload, if any.
    pub body: Option<String>,
}

/// The model of a [`Request`].
pub struct RequestView {
    pub method: Method,
    pub url: Seq<char>,
    pub authorization: Seq<char>,
    pub body: Option<Seq<char>>,
}

impl DeepView for Request {
    type V = RequestView;

    open spec fn deep_view(&self) -> RequestView {
        RequestView {
            method: self.method,
            url: self.url@,
            authorization: self.authorization@,
            body: self.body.deep_view(),
        }
    }
}

impl Request {
    /// The value of the `Content-Type` header: a request with a payload
    /// declares it as JSON, one without declares nothing.
    pub fn content_type(&self) -> (declared: Option<&'static str>)
        ensures
            match declared {
                Some(name) => self.body is Some && name@ == "application/json"@,
                None => self.body is None,
            },
    {
        match &self.body {
            Some(_) => Some("application/json"),
            None => None,
        }
    }
}

/// The character of a decimal digit.
pub open spec fn spec_digit(digit: int) -> char {
    if digit == 0 {
        '0'
    } else if digit == 1 {
        '1'
    } else if digit == 2 {
        '2'
    } else if digit == 3 {
        '3'
    } else if digit == 4 {
        '4'
    } else if digit == 5 {
        '5'
    } else if digit == 6 {
        '6'
    } else if digit == 7 {
        '7'
    } else if digit == 8 {
        '8'
    } else {
        '9'
    }
}

/// The decimal digits of a natural number, without leading zeros.
pub open spec fn spec_digits(number: nat) -> Seq<char>
    decreases number,
{
    if number < 10 {
        seq![spec_digit(number as int)]
    } else {
        spec_digits(number / 10).push(spec_digit((number % 10) as int))
    }
}

/// An integer in decimal notation, with a minus sign where it is negative.
pub open spec fn spec_decimal(number: int) -> Seq<char> {
    if number < 0 {
        seq!['-'] + spec_digits((-number) as nat)
    } else {
        spec_digits(number as nat)
    }
}

fn digit(value: u64) -> (text: &'static str)
    requires
        value < 10,
    ensures
        text@ == seq![spec_digit(value as int)],
{
    proof {
        reveal_strlit("0");
        reveal_strlit("1");
        reveal_strlit("2");
        reveal_strlit("3");
        reveal_strlit("4");
        reveal_strlit("5");
        reveal_strlit("6");
        reveal_strlit("7");
        reveal_strlit("8");
        reveal_strlit("9");
    }
    if value == 0 {
        "0"
    } else if value == 1 {
        "1"
    } else if value == 2 {
        "2"
    } else if value == 3 {
        "3"
    } else if value == 4 {
        "4"
    } else if value == 5 {
        "5"
    } else if value == 6 {
        "6"
    } else if value == 7 {
        "7"
    } else if value == 8 {
        "8"
    } else {
        "9"
    }
}

fn push_digits(number: u64, text: &mut String)
    ensures
        final(text)@ == old(text)@ + spec_digits(number as nat),
    decreases number,
{
    if number >= 10 {
        push_digits(number / 10, text);
    }
    text.append(digit(number % 10));
}

/// Writes an integer in decimal notation.
pub fn decimal(number: i64) -> (text: String)
    ensures
        text@ == spec_decimal(number as int),
{
    let mut text = String::new();
    if number < 0 {
        proof {
            reveal_strlit("-");
        }
        text.append("-");
        let magnitude: u64 = if number == i64::MIN {
            9223372036854775808u64
        } else {
            (-number) as u64
        };
        push_digits(magnitude, &mut text);
    } else {
        push_digits(number as u64, &mut text);
    }
    text
}

/// The path of a request about one platform: the root of the service's
/// paths, the code of the platform, and what follows it.
pub open spec fn spec_platform_path(platform: Platform, rest: Seq<char>) -> Seq<char> {
    "/api/v1/"@ + platform.spec_code() + rest
}

fn platform_path(platform: Platform, rest: &str) -> (path: String)
    ensures
        path@ == spec_platform_path(platform, rest@),
{
    let mut path = String::from_str("/api/v1/");
    path.append(platform.code().as_str());
    path.append(rest);
    path
}

/// The path under which the skills of one player are found.
pub open spec fn spec_player_skills_path(platform: Platform, player_id: Seq<char>) -> Seq<char> {
    spec_platform_path(platform, "/playerskills/"@) + player_id
}

/// The path under which the skills of one player are found.
pub fn player_skills_path(platform: Platform, player_id: &str) -> (path: String)
    ensures
        path@ == spec_player_skills_path(platform, player_id@),
{
    let mut path = platform_path(platform, "/playerskills/");
    path.append(player_id);
    path
}

/// The path under which the skills of several players are asked for.
pub open spec fn spec_players_skills_path(platform: Platform) -> Seq<char> {
    spec_platform_path(platform, "/playerskills"@)
}

/// The path under which the skills of several players are asked for.
pub fn players_skills_path(platform: Platform) -> (path: String)
    ensures
        path@ == spec_players_skills_path(platform),
{
    platform_path(platform, "/playerskills")
}

/// The path under which the titles of one player are found.
pub open spec fn spec_player_titles_path(platform: Platform, player_id: Seq<char>) -> Seq<char> {
    spec_platform_path(platform, "/playertitles/"@) + player_id
}

/// The path under which the titles of one player are found.
pub fn player_titles_path(platform: Platform, player_id: &str) -> (path: String)
    ensures
        path@ == spec_player_titles_path(platform, player_id@),
{
    let mut path = platform_path(platform, "/playertitles/");
    path.append(player_id);
    path
}

/// The path under which the population of the playlists is found.
pub open spec fn spec_population_path() -> Seq<char> {
    "/api/v1/population"@
}

/// The path under which the population of the playlists is found.
pub fn population_path() -> (path: String)
    ensures
        path@ == spec_population_path(),
{
    String::from_str("/api/v1/population")
}

/// The path under which the regions are found.
pub open spec fn spec_regions_path() -> Seq<char> {
    "/api/v1/regions"@
}

/// The path under which the regions are found.
pub fn regions_path() -> (path: String)
    ensures
        path@ == spec_regions_path(),
{
    String::from_str("/api/v1/regions")
}

/// The path under which the skill leaderboard of one playlist is found. The
/// playlist stands in it in decimal notation.
pub open spec fn spec_skills_leaderboard_path(platform: Platform, playlist: int) -> Seq<char> {
    spec_platform_path(platform, "/leaderboard/skills/"@) + spec_decimal(playlist)
}

/// The path under which the skill leaderboard of one playlist is found.
pub fn skills_leaderboard_path(platform: Platform, playlist: i64) -> (path: String)
    ensures
        path@ == spec_skills_leaderboard_path(platform, playlist as int),
{
    let mut path = platform_path(platform, "/leaderboard/skills/");
    path.append(decimal(playlist).as_str());
    path
}

/// The path under which the leaderboards of all stats are found.
pub open spec fn spec_stats_leaderboard_path(platform: Platform) -> Seq<char> {
    spec_platform_path(platform, "/leaderboard/stats"@)
}

/// The path under which the leaderboards of all stats are found.
pub fn stats_leaderboard_path(platform: Platform) -> (path: String)
    ensures
        path@ == spec_stats_leaderboard_path(platform),
{
    platform_path(platform, "/leaderboard/stats")
}

/// The path under which the leaderboard of one stat is found, and under
/// which the values of that stat are asked for several players.
pub open spec fn spec_stat_leaderboard_path(platform: Platform, stat: Seq<char>) -> Seq<char> {
    spec_platform_path(platform, "/leaderboard/stats/"@) + stat
}

/// The path under which the leaderboard of one stat is found, and under
/// which the values of that stat are asked for several players.
pub fn stat_leaderboard_path(platform: Platform, stat: &str) -> (path: String)
    ensures
        path@ == spec_stat_leaderboard_path(platform, stat@),
{
    let mut path = platform_path(platform, "/leaderboard/stats/");
    path.append(stat);
    path
}

/// The path under which the value of one stat is found for one player.
pub open spec fn spec_stat_value_path(
    platform: Platform,
    stat: Seq<char>,
    player_id: Seq<char>,
) -> Seq<char> {
    spec_stat_leaderboard_path(platform, stat) + "/"@ + player_id
}

/// The path under which the value of one stat is found for one player.
pub fn stat_value_path(platform: Platform, stat: &str, player_id: &str) -> (path: String)
    ensures
        path@ == spec_stat_value_path(platform, stat@, player_id@),
{
    let mut path = stat_leaderboard_path(platform, stat);
    path.append("/");
    path.append(player_id);
    path
}

/// Texts one after the other, in their order, with a comma between each two.
pub open spec fn spec_joined(items: Seq<Seq<char>>) -> Seq<char>
    decreases items.len(),
{
    if items.len() == 0 {
        Seq::empty()
    } else if items.len() == 1 {
        items[0]
    } else {
        spec_joined(items.drop_last()) + ","@ + items.last()
    }
}

/// Whether each of the texts can be written as a JSON string literal.
pub open spec fn spec_all_quoted(texts: Seq<Seq<char>>) -> bool {
    forall|i: int| 0 <= i < texts.len() ==> (#[trigger] json_quoted(texts[i])) is Some
}

/// The JSON string literals of the texts, one for one.
pub open spec fn spec_quoted(texts: Seq<Seq<char>>) -> Seq<Seq<char>> {
    Seq::new(texts.len(), |i: int| json_quoted(texts[i]).unwrap())
}

/// The JSON object whose one member, `player_ids`, is the array of the given
/// JSON values, in their order.
pub open spec fn spec_player_ids_object(items: Seq<Seq<char>>) -> Seq<char> {
    "{\"player_ids\":["@ + spec_joined(items) + "]}"@
}

/// The body of a query for several players: a JSON object whose one member,
/// `player_ids`, is the array of the identifiers as given, each a string.
/// There is none where an identifier cannot be written as JSON.
pub open spec fn spec_player_ids_body(player_ids: Seq<Seq<char>>) -> Option<Seq<char>> {
    if spec_all_quoted(player_ids) {
        Some(spec_player_ids_object(spec_quoted(player_ids)))
    } else {
        None
    }
}

/// Writes the JSON object whose one member, `player_ids`, is the array of
/// the given JSON values.
pub fn player_ids_object(items: &Vec<String>) -> (object: String)
    ensures
        object@ == spec_player_ids_object(items.deep_view()),
{
    let ghost texts = items.deep_view();
    let mut object = String::from_str("{\"player_ids\":[");
    let mut index: usize = 0;
    while index < items.len()
        invariant
            index <= items.len(),
            texts == items.deep_view(),
            object@ == "{\"player_ids\":["@ + spec_joined(texts.take(index as int)),
        decreases items.len() - index,
    {
        if index > 0 {
            object.append(",");
        }
        object.append(items[index].as_str());
        proof {
            let after = texts.take(index + 1);
            assert(after.drop_last() =~= texts.take(index as int));
        }
        index += 1;
    }
    assert(texts.take(index as int) =~= texts);
    object.append("]}");
    object
}

/// Writes the body of a query for several players.
pub fn player_ids_body(player_ids: &Vec<PlayerId>) -> (body: Option<String>)
    ensures
        body.deep_view() == spec_player_ids_body(player_ids.deep_view()),
{
    let ghost ids = player_ids.deep_view();
    let mut literals: Vec<String> = Vec::new();
    let mut index: usize = 0;
    while index < player_ids.len()
        invariant
            index <= player_ids.len(),
            ids == player_ids.deep_view(),
            literals@.len() == index,
            forall|i: int|
                0 <= i < index ==> #[trigger] json_quoted(ids[i]) == Some(literals@[i]@),
        decreases player_ids.len() - index,
    {
        match quote(player_ids[index].as_str()) {
            Some(literal) => {
                literals.push(literal);
            },
            None => {
                assert(json_quoted(ids[index as int]) is None);
                return None;
            },
        }
        index += 1;
    }
    assert(literals.deep_view() =~= spec_quoted(ids));
    Some(player_ids_object(&literals))
}

} // verus!
