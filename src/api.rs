//! What the client sends and how it reads what comes back: the client's
//! configuration, one request builder per operation of the service, the
//! headers of a request, and the classification of a response by status.

use vstd::prelude::*;
use crate::error::Error;
use crate::json::{keys, Json};
use crate::model::{
    create_beam_keys, create_beam_members, tombstone_keys, tombstone_members, update_beam_keys,
    update_beam_members, BeamQuery, CreateBeamRequest, TombstoneBeamRequest, UpdateBeamRequest,
};
use crate::text::{
    comma_joined, decimal, decimal_text, join_with_commas, trim_slashes, trim_trailing_slashes,
};

verus! {

/// Seconds after which a request is abandoned.
pub const REQUEST_TIMEOUT_SECS: u64 = 30;

/// The HTTP verbs that the service uses.
#[derive(Debug, Clone, Copy, PartialEq, Eq, Structural)]
pub enum Method {
    Get,
    Post,
    Patch,
    Delete,
}

/// A list of string pairs as sequences of characters.
pub open spec fn pairs_view(v: Seq<(String, String)>) -> Seq<(Seq<char>, Seq<char>)> {
    v.map_values(|p: (String, String)| (p.0@, p.1@))
}

/// The pair list that an optional parameter adds: the pair when it is set.
pub open spec fn pair_if(set: bool, key: Seq<char>, value: Seq<char>) -> Seq<(Seq<char>, Seq<char>)> {
    if set {
        seq![(key, value)]
    } else {
        seq![]
    }
}

/// Appends `key=value` when a value is given and nothing otherwise: a
/// parameter with no value is never sent.
fn push_pair(pairs: &mut Vec<(String, String)>, key: &str, value: Option<String>)
    ensures
        pairs_view(final(pairs)@) == pairs_view(old(pairs)@) + pair_if(
            value is Some,
            key@,
            value->Some_0@,
        ),
{
    match value {
        Some(v) => {
            pairs.push((String::from_str(key), v));
            assert(pairs_view(final(pairs)@) =~= pairs_view(old(pairs)@) + pair_if(
                true,
                key@,
                value->Some_0@,
            ));
        },
        None => {
            assert(pairs_view(pairs@) =~= pairs_view(pairs@) + pair_if(false, key@, seq![]));
        },
    }
}

/// `b` as the text `true` or `false`.
pub open spec fn bool_text(b: bool) -> Seq<char> {
    if b {
        "true"@
    } else {
        "false"@
    }
}

/// The query parameters of a chat history window.
pub open spec fn history_params(limit: Option<usize>, offset: Option<usize>) -> Seq<
    (Seq<char>, Seq<char>),
> {
    pair_if(limit is Some, "limit"@, decimal(limit->Some_0 as nat)) + pair_if(
        offset is Some,
        "offset"@,
        decimal(offset->Some_0 as nat),
    )
}

/// A list filter that is set and not empty; an empty list would be sent as
/// an empty value, so it is left out like an unset one.
pub open spec fn list_set(l: Option<Vec<String>>) -> bool {
    l matches Some(v) && v@.len() > 0
}

/// The query parameters of a beam query: one for each filter that is set,
/// where a list filter counts as set only when it is not empty.
pub open spec fn beam_query_params(q: BeamQuery) -> Seq<(Seq<char>, Seq<char>)> {
    pair_if(q.text is Some, "text"@, q.text->Some_0@) + pair_if(
        list_set(q.tags),
        "tags"@,
        comma_joined(q.tags->Some_0@),
    ) + pair_if(list_set(q.kinds), "kinds"@, comma_joined(q.kinds->Some_0@)) + pair_if(
        q.include_dead is Some,
        "include_dead"@,
        bool_text(q.include_dead->Some_0),
    ) + pair_if(q.limit is Some, "limit"@, decimal(q.limit->Some_0 as nat))
}

/// A beam query sends one parameter for each filter that is set (a list
/// filter only when it is not empty): none at all when no filter is set,
/// and only `text` when the text alone is set.
pub proof fn lemma_beam_query_params(q: BeamQuery)
    ensures
        beam_query_params(q).len() == (if q.text is Some { 1int } else { 0 }) + (if list_set(q.tags) {
            1int
        } else {
            0
        }) + (if list_set(q.kinds) { 1int } else { 0 }) + (if q.include_dead is Some {
            1int
        } else {
            0
        }) + (if q.limit is Some { 1int } else { 0 }),
        q.text is None && q.tags is None && q.kinds is None && q.include_dead is None
            && q.limit is None ==> beam_query_params(q) == Seq::<(Seq<char>, Seq<char>)>::empty(),
        q.text is Some && q.tags is None && q.kinds is None && q.include_dead is None
            && q.limit is None ==> beam_query_params(q) == seq![("text"@, q.text->Some_0@)],
{
    assert(q.text is None && q.tags is None && q.kinds is None && q.include_dead is None
        && q.limit is None ==> beam_query_params(q) =~= Seq::<(Seq<char>, Seq<char>)>::empty());
    assert(q.text is Some && q.tags is None && q.kinds is None && q.include_dead is None
        && q.limit is None ==> beam_query_params(q) =~= seq![("text"@, q.text->Some_0@)]);
}

/// One request to the service, ready for a transport to send.
#[derive(Debug)]
pub struct ApiRequest {
    pub method: Method,
    /// The path below the base URL, starting with `/`.
    pub path: String,
    /// Parameters of the query string, not yet URL-encoded.
    pub query: Vec<(String, String)>,
    /// The JSON body, if the request carries one.
    pub body: Option<Json>,
}

/// The path of a beam, followed by `suffix`.
fn beam_path(id: &str, suffix: &str) -> (r: String)
    ensures
        r@ == "/api/beams/"@ + id@ + suffix@,
{
    let mut p = String::from_str("/api/beams/");
    p.append(id);
    p.append(suffix);
    p
}

/// A request without query and without body.
fn bare(method: Method, path: &str) -> (r: ApiRequest)
    ensures
        r.method == method,
        r.path@ == path@,
        r.query@.len() == 0,
        r.body is None,
{
    ApiRequest { method, path: String::from_str(path), query: Vec::new(), body: None }
}

impl ApiRequest {
    /// `GET /health`.
    pub fn health() -> (r: ApiRequest)
        ensures
            r.method == Method::Get,
            r.path@ == "/health"@,
            r.query@.len() == 0,
            r.body is None,
    {
        bare(Method::Get, "/health")
    }

    /// `GET /api/status`.
    pub fn status() -> (r: ApiRequest)
        ensures
            r.method == Method::Get,
            r.path@ == "/api/status"@,
            r.query@.len() == 0,
            r.body is None,
    {
        bare(Method::Get, "/api/status")
    }

    /// `GET /api/identity`.
    pub fn identity() -> (r: ApiRequest)
        ensures
            r.method == Method::Get,
            r.path@ == "/api/identity"@,
            r.query@.len() == 0,
            r.body is None,
    {
        bare(Method::Get, "/api/identity")
    }

    /// `POST /api/chat/send` with the body `{"content": content}`.
    pub fn send_message(content: &str) -> (r: ApiRequest)
        ensures
            r.method == Method::Post,
            r.path@ == "/api/chat/send"@,
            r.query@.len() == 0,
            r.body matches Some(Json::Object(f)) && f@.len() == 1 && f@[0].0@ == "content"@
                && (f@[0].1 matches Json::Str(s) && s@ == content@),
    {
        let mut f: Vec<(String, Json)> = Vec::new();
        f.push((String::from_str("content"), Json::Str(String::from_str(content))));
        let mut r = bare(Method::Post, "/api/chat/send");
        r.body = Some(Json::Object(f));
        r
    }

    /// `GET /api/chat/history`, with `limit` and `offset` where given.
    pub fn chat_history(limit: Option<usize>, offset: Option<usize>) -> (r: ApiRequest)
        ensures
            r.method == Method::Get,
            r.path@ == "/api/chat/history"@,
            pairs_view(r.query@) == history_params(limit, offset),
            r.body is None,
    {
        let mut r = bare(Method::Get, "/api/chat/history");
        let l = match limit {
            Some(n) => Some(decimal_text(n as u64)),
            None => None,
        };
        push_pair(&mut r.query, "limit", l);
        let o = match offset {
            Some(n) => Some(decimal_text(n as u64)),
            None => None,
        };
        push_pair(&mut r.query, "offset", o);
        assert(pairs_view(r.query@) =~= history_params(limit, offset));
        r
    }

    /// `GET /api/beams`, with one query parameter for each filter that is set.
    pub fn query_beams(query: Option<BeamQuery>) -> (r: ApiRequest)
        ensures
            r.method == Method::Get,
            r.path@ == "/api/beams"@,
            pairs_view(r.query@) == match query {
                Some(q) => beam_query_params(q),
                None => seq![],
            },
            r.body is None,
    {
        let mut r = bare(Method::Get, "/api/beams");
        if let Some(q) = query {
            let ghost q0 = q;
            let tags = match &q.tags {
                Some(t) => if t.len() > 0 {
                    Some(join_with_commas(t))
                } else {
                    None
                },
                None => None,
            };
            let kinds = match &q.kinds {
                Some(k) => if k.len() > 0 {
                    Some(join_with_commas(k))
                } else {
                    None
                },
                None => None,
            };
            let include_dead = match q.include_dead {
                Some(b) => Some(String::from_str(if b { "true" } else { "false" })),
                None => None,
            };
            let limit = match q.limit {
                Some(n) => Some(decimal_text(n as u64)),
                None => None,
            };
            push_pair(&mut r.query, "text", q.text);
            push_pair(&mut r.query, "tags", tags);
            push_pair(&mut r.query, "kinds", kinds);
            push_pair(&mut r.query, "include_dead", include_dead);
            push_pair(&mut r.query, "limit", limit);
            assert(pairs_view(r.query@) =~= beam_query_params(q0));
        } else {
            assert(pairs_view(r.query@) =~= seq![]);
        }
        r
    }

    /// `GET /api/beams/{id}`.
    pub fn get_beam(id: &str) -> (r: ApiRequest)
        ensures
            r.method == Method::Get,
            r.path@ == "/api/beams/"@ + id@,
            r.query@.len() == 0,
            r.body is None,
    {
        let path = beam_path(id, "");
        proof {
            reveal_strlit("");
        }
        assert(path@ =~= "/api/beams/"@ + id@);
        ApiRequest { method: Method::Get, path, query: Vec::new(), body: None }
    }

    /// `POST /api/beams` with the creation payload.
    pub fn create_beam(request: &CreateBeamRequest) -> (r: ApiRequest)
        ensures
            r.method == Method::Post,
            r.path@ == "/api/beams"@,
            r.query@.len() == 0,
            r.body matches Some(Json::Object(f)) && keys(f@) == create_beam_keys(*request)
                && create_beam_members(f@, *request),
    {
        let mut r = bare(Method::Post, "/api/beams");
        r.body = Some(request.to_json());
        r
    }

    /// `PATCH /api/beams/{id}` with the fields to change.
    pub fn update_beam(id: &str, request: &UpdateBeamRequest) -> (r: ApiRequest)
        ensures
            r.method == Method::Patch,
            r.path@ == "/api/beams/"@ + id@,
            r.query@.len() == 0,
            r.body matches Some(Json::Object(f)) && keys(f@) == update_beam_keys(*request)
                && update_beam_members(f@, *request),
    {
        let mut r = ApiRequest::get_beam(id);
        r.method = Method::Patch;
        r.body = Some(request.to_json());
        r
    }

    /// `POST /api/beams/{id}/pin`.
    pub fn pin_beam(id: &str) -> (r: ApiRequest)
        ensures
            r.method == Method::Post,
            r.path@ == "/api/beams/"@ + id@ + "/pin"@,
            r.query@.len() == 0,
            r.body is None,
    {
        ApiRequest { method: Method::Post, path: beam_path(id, "/pin"), query: Vec::new(), body: None }
    }

    /// `DELETE /api/beams/{id}/pin`.
    pub fn unpin_beam(id: &str) -> (r: ApiRequest)
        ensures
            r.method == Method::Delete,
            r.path@ == "/api/beams/"@ + id@ + "/pin"@,
            r.query@.len() == 0,
            r.body is None,
    {
        ApiRequest {
            method: Method::Delete,
            path: beam_path(id, "/pin"),
            query: Vec::new(),
            body: None,
        }
    }

    /// `POST /api/beams/{id}/retire`.
    pub fn retire_beam(id: &str) -> (r: ApiRequest)
        ensures
            r.method == Method::Post,
            r.path@ == "/api/beams/"@ + id@ + "/retire"@,
            r.query@.len() == 0,
            r.body is None,
    {
        ApiRequest {
            method: Method::Post,
            path: beam_path(id, "/retire"),
            query: Vec::new(),
            body: None,
        }
    }

    /// `POST /api/beams/{id}/tombstone` with the tombstone payload.
    pub fn tombstone_beam(id: &str, request: &TombstoneBeamRequest) -> (r: ApiRequest)
        ensures
            r.method == Method::Post,
            r.path@ == "/api/beams/"@ + id@ + "/tombstone"@,
            r.query@.len() == 0,
            r.body matches Some(Json::Object(f)) && keys(f@) == tombstone_keys(*request)
                && tombstone_members(f@, *request),
    {
        ApiRequest {
            method: Method::Post,
            path: beam_path(id, "/tombstone"),
            query: Vec::new(),
            body: Some(request.to_json()),
        }
    }
}

/// What a response means, from its status and its body text (`None` where
/// the body could not be read): the body to decode when the status is in
/// 200..=299, an `ApiError` otherwise, which is never decoded.
pub fn classify_response(status: u16, body: Option<String>) -> (r: Result<String, Error>)
    ensures
        200 <= status <= 299 && body is Some ==> r == Ok::<String, Error>(body->Some_0),
        200 <= status <= 299 && body is None ==> (r matches Err(e) && e is DecodeError),
        !(200 <= status <= 299) ==> (r matches Err(Error::ApiError(s, t)) && s == status && t@ == (
        match body {
            Some(b) => b@,
            None => "Unknown error"@,
        })),
{
    if 200 <= status && status <= 299 {
        match body {
            Some(b) => Ok(b),
            None => Err(Error::DecodeError(String::from_str("the response body could not be read"))),
        }
    } else {
        let text = match body {
            Some(b) => b,
            None => String::from_str("Unknown error"),
        };
        Err(Error::ApiError(status, text))
    }
}

/// The client's configuration: where the service is and which key, if
/// any, proves who is calling. It does not change once made.
#[derive(Debug, Clone)]
pub struct MathisonClient {
    base_url: String,
    api_key: Option<String>,
}

impl MathisonClient {
    /// The base URL, without trailing slashes.
    pub closed spec fn base_url_spec(&self) -> Seq<char> {
        self.base_url@
    }

    /// The API key, if one was given.
    pub closed spec fn api_key_spec(&self) -> Option<Seq<char>> {
        match self.api_key {
            Some(k) => Some(k@),
            None => None,
        }
    }

    /// A client for the service at `base_url`, without an API key.
    pub fn new(base_url: &str) -> (r: Result<MathisonClient, Error>)
        ensures
            r matches Ok(c) && c.base_url_spec() == trim_slashes(base_url@) && c.api_key_spec() is None,
    {
        MathisonClient::with_api_key(base_url, None)
    }

    /// A client for the service at `base_url` that sends `api_key`, if given,
    /// with every request.
    pub fn with_api_key(base_url: &str, api_key: Option<String>) -> (r: Result<MathisonClient, Error>)
        ensures
            r matches Ok(c) && c.base_url_spec() == trim_slashes(base_url@) && c.api_key_spec() == (
            match api_key {
                Some(k) => Some(k@),
                None => None::<Seq<char>>,
            }),
    {
        Ok(MathisonClient { base_url: trim_trailing_slashes(base_url), api_key })
    }

    /// The base URL, without trailing slashes.
    pub fn base_url(&self) -> (r: &str)
        ensures
            r@ == self.base_url_spec(),
    {
        self.base_url.as_str()
    }

    /// Seconds after which a request of this client is abandoned.
    pub fn timeout_secs(&self) -> (r: u64)
        ensures
            r == REQUEST_TIMEOUT_SECS,
    {
        REQUEST_TIMEOUT_SECS
    }

    /// The URL of `request`, without its query string: the base URL
    /// followed by the request's path.
    pub fn url(&self, request: &ApiRequest) -> (r: String)
        ensures
            r@ == self.base_url_spec() + request.path@,
    {
        let mut u = self.base_url.clone();
        u.append(request.path.as_str());
        u
    }

    /// The headers of every request: a JSON content type, and a bearer token
    /// where the client has an API key.
    pub fn headers(&self) -> (r: Vec<(String, String)>)
        ensures
            pairs_view(r@) == seq![("Content-Type"@, "application/json"@)] + pair_if(
                self.api_key_spec() is Some,
                "Authorization"@,
                "Bearer "@ + self.api_key_spec()->Some_0,
            ),
    {
        let mut h: Vec<(String, String)> = Vec::new();
        push_pair(&mut h, "Content-Type", Some(String::from_str("application/json")));
        let auth = match &self.api_key {
            Some(k) => {
                let mut v = String::from_str("Bearer ");
                v.append(k.as_str());
                Some(v)
            },
            None => None,
        };
        push_pair(&mut h, "Authorization", auth);
        assert(pairs_view(h@) =~= seq![("Content-Type"@, "application/json"@)] + pair_if(
            self.api_key_spec() is Some,
            "Authorization"@,
            "Bearer "@ + self.api_key_spec()->Some_0,
        ));
        h
    }
}

} // verus!
