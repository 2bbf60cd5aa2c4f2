/// Response schemas of the subscription service
pub mod types;

use crate::http::client::{Headers, HttpClient, Query, TransportError};
use crate::json::{dec_i128, dec_int, json_parse, parse_json, JsonError};
use std::collections::HashMap;
use types::{response_json_ok, response_of_json, Response};
use vstd::prelude::*;
use vstd::string::StringExecFns;

verus! {

/// Enum of possible errors of a subscription-service fetch: the transport
/// failed, or the body did not deserialize.
#[derive(Debug, Clone, PartialEq, Eq)]
pub enum BoostyError {
    HttpError(TransportError),
    SerdeError(JsonError),
}

impl From<TransportError> for BoostyError {
    fn from(value: TransportError) -> Self {
        BoostyError::HttpError(value)
    }
}

impl vstd::std_specs::convert::FromSpecImpl<TransportError> for BoostyError {
    open spec fn obeys_from_spec() -> bool {
        true
    }

    open spec fn from_spec(v: TransportError) -> BoostyError {
        BoostyError::HttpError(v)
    }
}

impl From<JsonError> for BoostyError {
    fn from(value: JsonError) -> Self {
        BoostyError::SerdeError(value)
    }
}

impl vstd::std_specs::convert::FromSpecImpl<JsonError> for BoostyError {
    open spec fn obeys_from_spec() -> bool {
        true
    }

    open spec fn from_spec(v: JsonError) -> BoostyError {
        BoostyError::SerdeError(v)
    }
}

/// The exact URL a fetch with the given parameters requests.
pub open spec fn boosty_url(blog: Seq<char>, limit: int) -> Seq<char> {
    "https://api.boosty.to/v1/blog/"@ + blog + "/post/?limit="@ + dec_int(limit)
}

/// Builds the fixed-path URL embedding blog identifier and limit.
pub fn boosty_request_url(blog: &str, limit: i64) -> (u: String)
    ensures
        u@ == boosty_url(blog@, limit as int),
{
    let mut u = String::from_str("https://api.boosty.to/v1/blog/");
    u.append(blog);
    u.append("/post/?limit=");
    let limit_text = dec_i128(limit as i128);
    u.append(limit_text.as_str());
    proof {
        assert(u@ =~= boosty_url(blog@, limit as int));
    }
    u
}

/// Boosty client struct: a facade owning one transport, stateless otherwise.
#[derive(Debug, Clone, Copy)]
pub struct Boosty<Http: HttpClient> {
    /// HTTP client to use
    pub http: Http,
}

/// What a finished fetch must look like, given what the transport answered
/// to the one GET the fetch issues: a transport failure is surfaced verbatim
/// as the transport-error variant; a body that is not JSON, or is JSON that
/// does not match the response schema, is a deserialization error; and a
/// matching body yields exactly the response it denotes.
pub open spec fn fetch_result_ok(
    r: Result<Response, BoostyError>,
    model: Result<Seq<char>, Seq<char>>,
) -> bool {
    match model {
        Err(m) => r matches Err(BoostyError::HttpError(e)) && e@ == m,
        Ok(body) => match json_parse(body) {
            None => r == Err::<Response, BoostyError>(BoostyError::SerdeError(JsonError::NotJson)),
            Some(j) => if response_json_ok(j) {
                r matches Ok(resp) && resp@ == response_of_json(j)
            } else {
                r == Err::<Response, BoostyError>(BoostyError::SerdeError(JsonError::Schema))
            },
        },
    }
}

/// Boosty API client
impl<Http: HttpClient> Boosty<Http> {
    /// Returns a Boosty client that issues its requests through `http`.
    pub fn new(http: Http) -> (c: Boosty<Http>)
        ensures
            c.http == http,
    {
        Boosty { http }
    }

    /// Fetches post(s) from a Boosty blog.
    ///
    /// # Arguments
    /// `blog` - the blog identifier to read posts from
    /// `limit` - how many posts to return
    pub fn fetch(&self, blog: &str, limit: i64) -> (r: Result<Response, BoostyError>)
        ensures
            fetch_result_ok(
                r,
                self.http.get_model(
                    boosty_url(blog@, limit as int),
                    Map::empty(),
                    Map::empty(),
                ),
            ),
    {
        let headers: Headers = HashMap::new();
        let payload: Query = HashMap::new();
        let url = boosty_request_url(blog, limit);
        match self.http.get(url, &headers, &payload) {
            Err(e) => Err(BoostyError::HttpError(e)),
            Ok(body) => match parse_json(body.as_str()) {
                None => Err(BoostyError::SerdeError(JsonError::NotJson)),
                Some(doc) => match Response::from_json(&doc) {
                    Ok(response) => Ok(response),
                    Err(_) => Err(BoostyError::SerdeError(JsonError::Schema)),
                },
            },
        }
    }
}

} // verus!
