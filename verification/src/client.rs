//! The client: one call for each endpoint of the service.
//!
//! A call is made in two steps around the network traffic, which is the
//! caller's. The client first builds the request of the endpoint. The caller
//! sends it and reports what happened, and the call then concludes with the
//! decoded answer or with the failure.

use crate::decode::{decode_body, spec_decode_body, spec_decoded, Decode};
use crate::errors::Error;
use crate::platform::Platform;
use crate::request::{
    player_ids_body, player_skills_path, player_titles_path, players_skills_path,
    population_path, regions_path, skills_leaderboard_path, spec_player_ids_body,
    spec_player_skills_path, spec_player_titles_path, spec_players_skills_path,
    spec_population_path, spec_regions_path, spec_skills_leaderboard_path,
    spec_stat_leaderboard_path, spec_stat_value_path, spec_stats_leaderboard_path,
    stat_leaderboard_path, stat_value_path, stats_leaderboard_path, Method, Request,
    RequestView,
};
use crate::responses::{
    PlayerId, PlayerSkillResponse, PlayerTitlesResponse, PopulationResponse, RegionResponse,
    SkillLeaderboardResponse, StatLeaderboardResponse, StatValueForUserMultipleResponse,
    StatValueForUserResponse,
};
use crate::uri::{is_uri, uri_accepted};
use std::marker::PhantomData;
use vstd::prelude::*;

verus! {

/// Whether the transport that is to carry the requests could be set up.
#[derive(Clone, Copy, Debug, PartialEq, Eq, Structural)]
pub enum Transport {
    Ready,
    Unavailable,
}

/// What became of a request that was handed to the transport.
#[derive(Debug, PartialEq, Eq)]
pub enum Outcome {
    /// The transport could not be set up, or could not take the request.
    Refused,
    /// The network call failed: no connection, a failed handshake, a
    /// timeout, or a body that broke off.
    Failed,
    /// The service answered, and this is the whole body of its answer.
    Received(Vec<u8>),
}

/// A call in progress: the request of an endpoint, bound to the type of
/// record that the endpoint answers with.
pub struct Call<T> {
    pub request: Request,
    pub answer: PhantomData<T>,
}

/// What a call whose transport reported an outcome concludes with.
pub open spec fn spec_conclude<T: Decode>(outcome: Outcome) -> Result<T::V, Error> {
    match outcome {
        Outcome::Refused => Err(Error::Internal),
        Outcome::Failed => Err(Error::Transport),
        Outcome::Received(body) => spec_decode_body::<T>(body@),
    }
}

impl<T: Decode> Call<T> {
    /// Concludes the call. A transport that refused the request gives
    /// [`Error::Internal`] and a failed network call [`Error::Transport`];
    /// a received body is decoded, whatever status came with it, and gives
    /// the record or [`Error::Parse`].
    pub fn conclude(self, outcome: Outcome) -> (answer: Result<T, Error>)
        ensures
            spec_decoded(answer) == spec_conclude::<T>(outcome),
    {
        match outcome {
            Outcome::Refused => Err(Error::Internal),
            Outcome::Failed => Err(Error::Transport),
            Outcome::Received(body) => decode_body::<T>(body.as_slice()),
        }
    }
}

/// The request of a call, or the error that came in place of the call.
pub open spec fn spec_built<T>(built: Result<Call<T>, Error>) -> Result<RequestView, Error> {
    match built {
        Ok(call) => Ok(call.request.deep_view()),
        Err(error) => Err(error),
    }
}

/// A client of the service. It holds the access token and the origin of the
/// service, and neither changes while the client lives.
pub struct LeagueClient {
    token: String,
    origin: String,
}

impl LeagueClient {
    /// The access token that the client presents.
    pub closed spec fn spec_token(&self) -> Seq<char> {
        self.token@
    }

    /// The origin of the service, with which the address of each request
    /// begins.
    pub closed spec fn spec_origin(&self) -> Seq<char> {
        self.origin@
    }

    /// A client of the public service, `https://api.rocketleague.com`. There
    /// is none, and [`Error::Internal`] in its place, exactly where the
    /// transport is unavailable.
    pub fn new(token: String, transport: Transport) -> (made: Result<LeagueClient, Error>)
        ensures
            match made {
                Ok(client) => {
                    &&& transport == Transport::Ready
                    &&& client.spec_token() == token@
                    &&& client.spec_origin() == "https://api.rocketleague.com"@
                },
                Err(error) => transport == Transport::Unavailable && error == Error::Internal,
            },
    {
        let origin = String::from_str("https://api.rocketleague.com");
        LeagueClient::with_origin(token, origin, transport)
    }

    /// A client of a service at another origin. There is none, and
    /// [`Error::Internal`] in its place, exactly where the transport is
    /// unavailable.
    pub fn with_origin(
        token: String,
        origin: String,
        transport: Transport,
    ) -> (made: Result<LeagueClient, Error>)
        ensures
            match made {
                Ok(client) => {
                    &&& transport == Transport::Ready
                    &&& client.spec_token() == token@
                    &&& client.spec_origin() == origin@
                },
                Err(error) => transport == Transport::Unavailable && error == Error::Internal,
            },
    {
        match transport {
            Transport::Ready => Ok(LeagueClient { token, origin }),
            Transport::Unavailable => Err(Error::Internal),
        }
    }

    /// The access token that the client presents.
    pub fn token(&self) -> (token: &str)
        ensures
            token@ == self.spec_token(),
    {
        self.token.as_str()
    }

    /// The origin of the service.
    pub fn origin(&self) -> (origin: &str)
        ensures
            origin@ == self.spec_origin(),
    {
        self.origin.as_str()
    }

    /// The request for an address: it presents the token as `Token <token>`.
    /// There is none, and [`Error::Internal`] in its place, where the address
    /// was not accepted as a URI.
    pub open spec fn spec_addressed(
        &self,
        method: Method,
        url: Seq<char>,
        body: Option<Seq<char>>,
        accepted: bool,
    ) -> Result<RequestView, Error> {
        if accepted {
            Ok(RequestView { method, url, authorization: "Token "@ + self.spec_token(), body })
        } else {
            Err(Error::Internal)
        }
    }

    /// The request for a path: its address is the origin followed by the
    /// path, which has to be a URI.
    pub open spec fn spec_request(
        &self,
        method: Method,
        path: Seq<char>,
        body: Option<Seq<char>>,
    ) -> Result<RequestView, Error> {
        let url = self.spec_origin() + path;
        self.spec_addressed(method, url, body, uri_accepted(url))
    }

    /// Builds the call for an address of which it is known whether it was
    /// accepted as a URI.
    pub fn addressed<T: Decode>(
        &self,
        method: Method,
        url: String,
        body: Option<String>,
        accepted: bool,
    ) -> (built: Result<Call<T>, Error>)
        ensures
            spec_built(built) == self.spec_addressed(method, url@, body.deep_view(), accepted),
    {
        if accepted {
            let mut authorization = String::from_str("Token ");
            authorization.append(self.token.as_str());
            let request = Request { method, url, authorization, body };
            Ok(Call { request, answer: PhantomData })
        } else {
            Err(Error::Internal)
        }
    }

    /// Builds the call for a path.
    pub fn call<T: Decode>(
        &self,
        method: Method,
        path: &str,
        body: Option<String>,
    ) -> (built: Result<Call<T>, Error>)
        ensures
            spec_built(built) == self.spec_request(method, path@, body.deep_view()),
    {
        let mut url = self.origin.clone();
        url.append(path);
        let accepted = is_uri(url.as_str());
        self.addressed(method, url, body, accepted)
    }

    /// The request of a query for several players: a `POST` with the
    /// identifiers as its body. There is none, and [`Error::Internal`] in its
    /// place, where an identifier cannot be written as JSON or the address is
    /// no URI.
    pub open spec fn spec_query(
        &self,
        path: Seq<char>,
        player_ids: Seq<Seq<char>>,
    ) -> Result<RequestView, Error> {
        match spec_player_ids_body(player_ids) {
            Some(body) => self.spec_request(Method::Post, path, Some(body)),
            None => Err(Error::Internal),
        }
    }

    /// Builds the call of a query for several players.
    pub fn query<T: Decode>(
        &self,
        path: &str,
        player_ids: &Vec<PlayerId>,
    ) -> (built: Result<Call<T>, Error>)
        ensures
            spec_built(built) == self.spec_query(path@, player_ids.deep_view()),
    {
        match player_ids_body(player_ids) {
            Some(body) => self.call(Method::Post, path, Some(body)),
            None => Err(Error::Internal),
        }
    }

    /// The skills of one player.
    pub fn player_skills(
        &self,
        platform: Platform,
        player_id: &str,
    ) -> (built: Result<Call<Vec<PlayerSkillResponse>>, Error>)
        ensures
            spec_built(built) == self.spec_request(
                Method::Get,
                spec_player_skills_path(platform, player_id@),
                None,
            ),
    {
        self.call(Method::Get, player_skills_path(platform, player_id).as_str(), None)
    }

    /// The skills of several players, asked for in one query.
    pub fn players_skills(
        &self,
        platform: Platform,
        player_ids: &Vec<PlayerId>,
    ) -> (built: Result<Call<Vec<PlayerSkillResponse>>, Error>)
        ensures
            spec_built(built) == self.spec_query(
                spec_players_skills_path(platform),
                player_ids.deep_view(),
            ),
    {
        self.query(players_skills_path(platform).as_str(), player_ids)
    }

    /// The titles of one player.
    pub fn player_titles(
        &self,
        platform: Platform,
        player_id: &str,
    ) -> (built: Result<Call<PlayerTitlesResponse>, Error>)
        ensures
            spec_built(built) == self.spec_request(
                Method::Get,
                spec_player_titles_path(platform, player_id@),
                None,
            ),
    {
        self.call(Method::Get, player_titles_path(platform, player_id).as_str(), None)
    }

    /// The number of players in each playlist, platform by platform.
    pub fn population(&self) -> (built: Result<Call<PopulationResponse>, Error>)
        ensures
            spec_built(built) == self.spec_request(Method::Get, spec_population_path(), None),
    {
        self.call(Method::Get, population_path().as_str(), None)
    }

    /// The regions of the service.
    pub fn regions(&self) -> (built: Result<Call<Vec<RegionResponse>>, Error>)
        ensures
            spec_built(built) == self.spec_request(Method::Get, spec_regions_path(), None),
    {
        self.call(Method::Get, regions_path().as_str(), None)
    }

    /// The skill leaderboard of one playlist.
    pub fn skills_leaderboard(
        &self,
        platform: Platform,
        playlist: i64,
    ) -> (built: Result<Call<Vec<SkillLeaderboardResponse>>, Error>)
        ensures
            spec_built(built) == self.spec_request(
                Method::Get,
                spec_skills_leaderboard_path(platform, playlist as int),
                None,
            ),
    {
        self.call(Method::Get, skills_leaderboard_path(platform, playlist).as_str(), None)
    }

    /// The leaderboards of all stats.
    pub fn stats_leaderboard(
        &self,
        platform: Platform,
    ) -> (built: Result<Call<Vec<StatLeaderboardResponse>>, Error>)
        ensures
            spec_built(built) == self.spec_request(
                Method::Get,
                spec_stats_leaderboard_path(platform),
                None,
            ),
    {
        self.call(Method::Get, stats_leaderboard_path(platform).as_str(), None)
    }

    /// The leaderboard of one stat.
    pub fn stat_leaderboard(
        &self,
        platform: Platform,
        stat: &str,
    ) -> (built: Result<Call<Vec<StatLeaderboardResponse>>, Error>)
        ensures
            spec_built(built) == self.spec_request(
                Method::Get,
                spec_stat_leaderboard_path(platform, stat@),
                None,
            ),
    {
        self.call(Method::Get, stat_leaderboard_path(platform, stat).as_str(), None)
    }

    /// The value of one stat for one player.
    pub fn stat_value_for_user(
        &self,
        platform: Platform,
        stat: &str,
        player_id: &str,
    ) -> (built: Result<Call<Vec<StatValueForUserResponse>>, Error>)
        ensures
            spec_built(built) == self.spec_request(
                Method::Get,
                spec_stat_value_path(platform, stat@, player_id@),
                None,
            ),
    {
        self.call(Method::Get, stat_value_path(platform, stat, player_id).as_str(), None)
    }

    /// The value of one stat for several players, asked for in one query.
    pub fn stat_value_for_users(
        &self,
        platform: Platform,
        stat: &str,
        player_ids: &Vec<PlayerId>,
    ) -> (built: Result<Call<Vec<StatValueForUserMultipleResponse>>, Error>)
        ensures
            spec_built(built) == self.spec_query(
                spec_stat_leaderboard_path(platform, stat@),
                player_ids.deep_view(),
            ),
    {
        self.query(stat_leaderboard_path(platform, stat).as_str(), player_ids)
    }
}

} // verus!
