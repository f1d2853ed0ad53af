//! The client's computational half: it holds the credentials, builds every
//! request URL, classifies transport outcomes, and turns response bodies into
//! typed models. The network round-trip itself is the caller's: it issues the
//! GET for a URL built here and hands back either the body text or the
//! transport outcome.

use vstd::prelude::*;
use crate::decode::{
    decode_items, decode_leaderboards, decode_user, item_matches, items_match, items_ok,
    leaderboards_matches, leaderboards_ok, user_matches, user_ok,
};
use crate::flags::{LeaderboardsFlags, UserDataFlags};
use crate::json::{parse_json, parsed_json, Json};
use crate::leaderboard::{
    leaderboard_user_from, reassembly_matches, some_section_empty,
};
use crate::models::{ApiError, Item, Leaderboards, LeaderboardUser, User};
use crate::query::{leaderboard_flags_to_query, leaderboard_query_spec};

verus! {

/// The credential part of every query string.
pub open spec fn credentials_query_spec(auth: Seq<char>, key: Seq<char>) -> Seq<char> {
    "authId="@ + auth + "&apiKey="@ + key
}

/// The query string of a user lookup: credentials, the username, and one bare
/// marker per requested optional field, in declared order.
pub open spec fn user_query_spec(
    auth: Seq<char>,
    key: Seq<char>,
    name: Seq<char>,
    flags: UserDataFlags,
) -> Seq<char> {
    let q = credentials_query_spec(auth, key) + "&name="@ + name;
    let q = if flags.biography { q + "&biography"@ } else { q };
    let q = if flags.equipment { q + "&equipment"@ } else { q };
    let q = if flags.inventory { q + "&inventory"@ } else { q };
    q
}

/// The query string of a global leaderboards lookup.
pub open spec fn leaderboards_query_spec(
    auth: Seq<char>,
    key: Seq<char>,
    flags: LeaderboardsFlags,
) -> Seq<char> {
    credentials_query_spec(auth, key) + "&"@ + leaderboard_query_spec(flags)
}

/// The query string of a by-username leaderboards lookup.
pub open spec fn leaderboard_user_query_spec(
    auth: Seq<char>,
    key: Seq<char>,
    name: Seq<char>,
    flags: LeaderboardsFlags,
) -> Seq<char> {
    credentials_query_spec(auth, key) + "&name="@ + name + "&"@ + leaderboard_query_spec(flags)
}

/// A client for the Between Worlds API: the credentials every request carries.
pub struct Client {
    pub auth_id: String,
    pub api_key: String,
}

impl Client {
    /// A client with the given credentials.
    /// `auth_id` is the account's ingame name; `api_key` comes from the
    /// account settings.
    pub fn new(auth_id: String, api_key: String) -> (r: Self)
        ensures
            r.auth_id == auth_id,
            r.api_key == api_key,
    {
        Client { auth_id, api_key }
    }

    /// The full URL of a user lookup.
    pub fn user_url(&self, username: &str, data_flags: UserDataFlags) -> (r: String)
        ensures
            r@ == "https://api.betweenworlds.net/v1/users?"@ + user_query_spec(
                self.auth_id@,
                self.api_key@,
                username@,
                data_flags,
            ),
    {
        let mut url = String::new();
        url.append("https://api.betweenworlds.net/v1/users?");
        url.append("authId=");
        url.append(self.auth_id.as_str());
        url.append("&apiKey=");
        url.append(self.api_key.as_str());
        url.append("&name=");
        url.append(username);
        if data_flags.biography {
            url.append("&biography");
        }
        if data_flags.equipment {
            url.append("&equipment");
        }
        if data_flags.inventory {
            url.append("&inventory");
        }
        url
    }

    /// The full URL of the item-catalog lookup.
    pub fn items_url(&self) -> (r: String)
        ensures
            r@ == "https://api.betweenworlds.net/v1/items?"@ + credentials_query_spec(
                self.auth_id@,
                self.api_key@,
            ),
    {
        let mut url = String::new();
        url.append("https://api.betweenworlds.net/v1/items?");
        url.append("authId=");
        url.append(self.auth_id.as_str());
        url.append("&apiKey=");
        url.append(self.api_key.as_str());
        url
    }

    /// The full URL of a global leaderboards lookup.
    pub fn leaderboards_url(&self, data_flags: LeaderboardsFlags) -> (r: String)
        ensures
            r@ == "https://api.betweenworlds.net/v1/leaderboards?"@ + leaderboards_query_spec(
                self.auth_id@,
                self.api_key@,
                data_flags,
            ),
    {
        let mut url = String::new();
        url.append("https://api.betweenworlds.net/v1/leaderboards?");
        url.append("authId=");
        url.append(self.auth_id.as_str());
        url.append("&apiKey=");
        url.append(self.api_key.as_str());
        url.append("&");
        let q = leaderboard_flags_to_query(data_flags);
        url.append(q.as_str());
        url
    }

    /// The full URL of a by-username leaderboards lookup.
    pub fn leaderboard_user_url(&self, username: &str, data_flags: LeaderboardsFlags) -> (r:
        String)
        ensures
            r@ == "https://api.betweenworlds.net/v1/leaderboards?"@
                + leaderboard_user_query_spec(
                self.auth_id@,
                self.api_key@,
                username@,
                data_flags,
            ),
    {
        let mut url = String::new();
        url.append("https://api.betweenworlds.net/v1/leaderboards?");
        url.append("authId=");
        url.append(self.auth_id.as_str());
        url.append("&apiKey=");
        url.append(self.api_key.as_str());
        url.append("&name=");
        url.append(username);
        url.append("&");
        let q = leaderboard_flags_to_query(data_flags);
        url.append(q.as_str());
        url
    }
}

/// Classifies a failed round-trip from what the transport reported: a timeout
/// outranks everything, then the HTTP status decides.
pub fn classify_error(is_timeout: bool, status: Option<u16>) -> (r: ApiError)
    ensures
        is_timeout ==> r == ApiError::RequestTimeout,
        !is_timeout && status == Some(401u16) ==> r == ApiError::Unauthorized,
        !is_timeout && status == Some(404u16) ==> r == ApiError::NotFound,
        !is_timeout && (status matches Some(s) && s != 401 && s != 404) ==> r == ApiError::Other,
        !is_timeout && status is None ==> r == ApiError::Other,
{
    if is_timeout {
        ApiError::RequestTimeout
    } else {
        match status {
            Some(401u16) => ApiError::Unauthorized,
            Some(404u16) => ApiError::NotFound,
            Some(_) => ApiError::Other,
            None => ApiError::Other,
        }
    }
}

/// Decodes the body of a user lookup: invalid JSON or an unexpected shape is a
/// deserialization failure carrying the diagnostic.
pub fn parse_user_response(body: &str) -> (r: Result<User, ApiError>)
    ensures
        parsed_json(body@) is None ==> (r matches Err(e) && e is Deserialization),
        parsed_json(body@) matches Some(j) ==> {
            &&& (r is Ok <==> user_ok(j))
            &&& (r matches Ok(u) ==> user_matches(j, u))
            &&& (!user_ok(j) ==> (r matches Err(e) && e is Deserialization))
        },
{
    let j = match parse_json(body) {
        Ok(j) => j,
        Err(msg) => {
            return Err(ApiError::Deserialization(msg));
        },
    };
    match decode_user(j) {
        Ok(u) => Ok(u),
        Err(e) => Err(ApiError::Deserialization(e.message())),
    }
}

/// Decodes the body of the item-catalog lookup.
pub fn parse_items_response(body: &str) -> (r: Result<Vec<Item>, ApiError>)
    ensures
        parsed_json(body@) is None ==> (r matches Err(e) && e is Deserialization),
        parsed_json(body@) matches Some(j) ==> {
            &&& (r is Ok <==> j is Arr && items_ok(j->Arr_0@))
            &&& (r matches Ok(v) ==> j is Arr && items_match(j->Arr_0@, v@))
            &&& (!(j is Arr && items_ok(j->Arr_0@)) ==> (r matches Err(e) && e is Deserialization))
        },
{
    let j = match parse_json(body) {
        Ok(j) => j,
        Err(msg) => {
            return Err(ApiError::Deserialization(msg));
        },
    };
    match decode_items(j) {
        Ok(v) => Ok(v),
        Err(e) => Err(ApiError::Deserialization(e.message())),
    }
}

/// Decodes the body of a leaderboards lookup.
pub fn parse_leaderboards_response(body: &str) -> (r: Result<Leaderboards, ApiError>)
    ensures
        parsed_json(body@) is None ==> (r matches Err(e) && e is Deserialization),
        parsed_json(body@) matches Some(j) ==> {
            &&& (r is Ok <==> leaderboards_ok(j))
            &&& (r matches Ok(lb) ==> leaderboards_matches(j, lb))
            &&& (!leaderboards_ok(j) ==> (r matches Err(e) && e is Deserialization))
        },
{
    let j = match parse_json(body) {
        Ok(j) => j,
        Err(msg) => {
            return Err(ApiError::Deserialization(msg));
        },
    };
    match decode_leaderboards(j) {
        Ok(lb) => Ok(lb),
        Err(e) => Err(ApiError::Deserialization(e.message())),
    }
}

/// Decodes the body of a by-username leaderboards lookup and reassembles the
/// per-user view: the whole by-username pipeline after the GET.
pub fn parse_leaderboard_user_response(body: &str) -> (r: Result<LeaderboardUser, ApiError>)
    ensures
        parsed_json(body@) is None ==> (r matches Err(e) && e is Deserialization),
        parsed_json(body@) matches Some(j) ==> {
            &&& (!leaderboards_ok(j) ==> (r matches Err(e) && e is Deserialization))
            &&& (leaderboards_ok(j) ==> exists|lb: Leaderboards|
                {
                    &&& #[trigger] leaderboards_matches(j, lb)
                    &&& (some_section_empty(lb) ==> r == Err::<LeaderboardUser, ApiError>(
                        ApiError::NotFound,
                    ))
                    &&& (!some_section_empty(lb) ==> (r matches Ok(u) && reassembly_matches(lb, u)))
                })
        },
{
    let lb = match parse_leaderboards_response(body) {
        Ok(lb) => lb,
        Err(e) => {
            return Err(e);
        },
    };
    let ghost lb0 = lb;
    let r = leaderboard_user_from(lb);
    proof {
        if parsed_json(body@) is Some {
            let j = parsed_json(body@)->0;
            assert(leaderboards_matches(j, lb0));
        }
    }
    match r {
        Ok(u) => Ok(u),
        Err(e) => Err(e),
    }
}


/// The whole body-handling half of a user lookup that got a success status:
/// a body that could not be read at all is an `Other` failure; otherwise the
/// body text decides, exactly as `parse_user_response` says.
pub fn user_from_body(body: Option<String>) -> (r: Result<User, ApiError>)
    ensures
        body is None ==> r == Err::<User, ApiError>(ApiError::Other),
        body matches Some(t) ==> {
            &&& (parsed_json(t@) is None ==> (r matches Err(e) && e is Deserialization))
            &&& (parsed_json(t@) matches Some(j) ==> {
                &&& (r is Ok <==> user_ok(j))
                &&& (r matches Ok(u) ==> user_matches(j, u))
                &&& (!user_ok(j) ==> (r matches Err(e) && e is Deserialization))
            })
        },
{
    match body {
        Some(t) => parse_user_response(t.as_str()),
        None => Err(ApiError::Other),
    }
}

/// The whole body-handling half of the item-catalog lookup that got a success
/// status.
pub fn items_from_body(body: Option<String>) -> (r: Result<Vec<Item>, ApiError>)
    ensures
        body is None ==> r == Err::<Vec<Item>, ApiError>(ApiError::Other),
        body matches Some(t) ==> {
            &&& (parsed_json(t@) is None ==> (r matches Err(e) && e is Deserialization))
            &&& (parsed_json(t@) matches Some(j) ==> {
                &&& (r is Ok <==> j is Arr && items_ok(j->Arr_0@))
                &&& (r matches Ok(v) ==> j is Arr && items_match(j->Arr_0@, v@))
                &&& (!(j is Arr && items_ok(j->Arr_0@)) ==> (r matches Err(e)
                    && e is Deserialization))
            })
        },
{
    match body {
        Some(t) => parse_items_response(t.as_str()),
        None => Err(ApiError::Other),
    }
}

/// The whole body-handling half of a leaderboards lookup that got a success
/// status.
pub fn leaderboards_from_body(body: Option<String>) -> (r: Result<Leaderboards, ApiError>)
    ensures
        body is None ==> r == Err::<Leaderboards, ApiError>(ApiError::Other),
        body matches Some(t) ==> {
            &&& (parsed_json(t@) is None ==> (r matches Err(e) && e is Deserialization))
            &&& (parsed_json(t@) matches Some(j) ==> {
                &&& (r is Ok <==> leaderboards_ok(j))
                &&& (r matches Ok(lb) ==> leaderboards_matches(j, lb))
                &&& (!leaderboards_ok(j) ==> (r matches Err(e) && e is Deserialization))
            })
        },
{
    match body {
        Some(t) => parse_leaderboards_response(t.as_str()),
        None => Err(ApiError::Other),
    }
}

/// The whole body-handling half of a by-username leaderboards lookup that got
/// a success status, reassembly included.
pub fn leaderboard_user_from_body(body: Option<String>) -> (r: Result<LeaderboardUser, ApiError>)
    ensures
        body is None ==> r == Err::<LeaderboardUser, ApiError>(ApiError::Other),
        body matches Some(t) ==> {
            &&& (parsed_json(t@) is None ==> (r matches Err(e) && e is Deserialization))
            &&& (parsed_json(t@) matches Some(j) ==> {
                &&& (!leaderboards_ok(j) ==> (r matches Err(e) && e is Deserialization))
                &&& (leaderboards_ok(j) ==> exists|lb: Leaderboards|
                    {
                        &&& #[trigger] leaderboards_matches(j, lb)
                        &&& (some_section_empty(lb) ==> r == Err::<LeaderboardUser, ApiError>(
                            ApiError::NotFound,
                        ))
                        &&& (!some_section_empty(lb) ==> (r matches Ok(u)
                            && reassembly_matches(lb, u)))
                    })
            })
        },
{
    match body {
        Some(t) => parse_leaderboard_user_response(t.as_str()),
        None => Err(ApiError::Other),
    }
}

} // verus!
