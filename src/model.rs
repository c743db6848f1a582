//! The service's records, the decoders that read them out of JSON, and the
//! encoders of request payloads.
//!
//! Decoders read members by key and ignore every other member, so a server
//! that adds keys does not break them. Encoders leave out the members of
//! optional fields that are unset; they never write `null` for them.

use vstd::prelude::*;
use crate::error::Error;
use crate::json::{
    get_member, has_member, has_strings, is_string_array, key_if, keys, lemma_lookup_skips, lookup,
    push_present, string_array, take_member, Json,
};

verus! {

// ---------------------------------------------------------------- members

/// The string under `key`.
pub open spec fn str_at(f: Seq<(String, Json)>, key: Seq<char>) -> Option<String> {
    match lookup(f, key) {
        Some(Json::Str(s)) => Some(s),
        _ => None,
    }
}

/// The boolean under `key`.
pub open spec fn bool_at(f: Seq<(String, Json)>, key: Seq<char>) -> Option<bool> {
    match lookup(f, key) {
        Some(Json::Bool(b)) => Some(b),
        _ => None,
    }
}

/// The integer under `key`, where it fits an `i64`.
pub open spec fn i64_at(f: Seq<(String, Json)>, key: Seq<char>) -> Option<i64> {
    match lookup(f, key) {
        Some(Json::Int(n)) => if i64::MIN <= n <= i64::MAX {
            Some(n as i64)
        } else {
            None
        },
        _ => None,
    }
}

/// The integer under `key`, where it fits a `usize`.
pub open spec fn usize_at(f: Seq<(String, Json)>, key: Seq<char>) -> Option<usize> {
    match lookup(f, key) {
        Some(Json::Int(n)) => if 0 <= n <= usize::MAX {
            Some(n as usize)
        } else {
            None
        },
        _ => None,
    }
}

/// The strings under `key`, where it holds an array of strings only.
pub open spec fn strings_at(f: Seq<(String, Json)>, key: Seq<char>) -> Option<Seq<String>> {
    match lookup(f, key) {
        Some(Json::Array(v)) => if forall|i: int| 0 <= i < v@.len() ==> v@[i] is Str {
            Some(v@.map_values(|x: Json| x->Str_0))
        } else {
            None
        },
        _ => None,
    }
}

/// An optional string may be absent or `null`.
pub open spec fn opt_str_ok(f: Seq<(String, Json)>, key: Seq<char>) -> bool {
    match lookup(f, key) {
        None => true,
        Some(Json::Null) => true,
        Some(Json::Str(_)) => true,
        _ => false,
    }
}

/// An error that names the member that is missing or has the wrong type.
fn bad_member(key: &str) -> (e: Error)
    ensures
        e is DecodeError,
{
    let mut detail = String::from_str("missing or invalid field: ");
    detail.append(key);
    Error::DecodeError(detail)
}

fn member_str(f: &Vec<(String, Json)>, key: &str) -> (r: Result<String, Error>)
    ensures
        r is Ok <==> str_at(f@, key@) is Some,
        r matches Ok(s) ==> str_at(f@, key@) == Some(s),
        r matches Err(e) ==> e is DecodeError,
{
    match get_member(f, key) {
        Some(Json::Str(s)) => Ok(s.clone()),
        _ => Err(bad_member(key)),
    }
}

fn member_bool(f: &Vec<(String, Json)>, key: &str) -> (r: Result<bool, Error>)
    ensures
        r is Ok <==> bool_at(f@, key@) is Some,
        r matches Ok(b) ==> bool_at(f@, key@) == Some(b),
        r matches Err(e) ==> e is DecodeError,
{
    match get_member(f, key) {
        Some(Json::Bool(b)) => Ok(*b),
        _ => Err(bad_member(key)),
    }
}

fn member_i64(f: &Vec<(String, Json)>, key: &str) -> (r: Result<i64, Error>)
    ensures
        r is Ok <==> i64_at(f@, key@) is Some,
        r matches Ok(n) ==> i64_at(f@, key@) == Some(n),
        r matches Err(e) ==> e is DecodeError,
{
    match get_member(f, key) {
        Some(Json::Int(n)) => if i64::MIN as i128 <= *n && *n <= i64::MAX as i128 {
            Ok(*n as i64)
        } else {
            Err(bad_member(key))
        },
        _ => Err(bad_member(key)),
    }
}

fn member_usize(f: &Vec<(String, Json)>, key: &str) -> (r: Result<usize, Error>)
    ensures
        r is Ok <==> usize_at(f@, key@) is Some,
        r matches Ok(n) ==> usize_at(f@, key@) == Some(n),
        r matches Err(e) ==> e is DecodeError,
{
    match get_member(f, key) {
        Some(Json::Int(n)) => if 0 <= *n && *n <= usize::MAX as i128 {
            Ok(*n as usize)
        } else {
            Err(bad_member(key))
        },
        _ => Err(bad_member(key)),
    }
}

fn member_strings(f: &Vec<(String, Json)>, key: &str) -> (r: Result<Vec<String>, Error>)
    ensures
        r is Ok <==> strings_at(f@, key@) is Some,
        r matches Ok(v) ==> strings_at(f@, key@) == Some(v@),
        r matches Err(e) ==> e is DecodeError,
{
    match get_member(f, key) {
        Some(Json::Array(items)) => {
            let mut out: Vec<String> = Vec::new();
            let mut i: usize = 0;
            while i < items.len()
                invariant
                    i <= items@.len(),
                    out@.len() == i,
                    lookup(f@, key@) == Some(Json::Array(*items)),
                    forall|k: int| 0 <= k < i ==> (#[trigger] items@[k]) is Str && out@[k] == items@[k]->Str_0,
                decreases items.len() - i,
            {
                let item = &items[i];
                match item {
                    Json::Str(s) => {
                        assert(items@[i as int] == Json::Str(*s));
                        out.push(s.clone());
                    },
                    _ => {
                        assert(!(items@[i as int] is Str));
                        return Err(bad_member(key));
                    },
                }
                i = i + 1;
            }
            assert(forall|k: int| 0 <= k < items@.len() ==> items@[k] is Str);
            assert(out@ =~= items@.map_values(|x: Json| x->Str_0));
            Ok(out)
        },
        _ => Err(bad_member(key)),
    }
}

fn member_opt_str(f: &Vec<(String, Json)>, key: &str) -> (r: Result<Option<String>, Error>)
    ensures
        r is Ok <==> opt_str_ok(f@, key@),
        r matches Ok(s) ==> s == str_at(f@, key@),
        r matches Err(e) ==> e is DecodeError,
{
    match get_member(f, key) {
        None => Ok(None),
        Some(Json::Null) => Ok(None),
        Some(Json::Str(s)) => Ok(Some(s.clone())),
        _ => Err(bad_member(key)),
    }
}

fn not_an_object() -> (e: Error)
    ensures
        e is DecodeError,
{
    Error::DecodeError(String::from_str("expected a JSON object"))
}

// ---------------------------------------------------------------- beams

/// A knowledge item as the server reports it.
#[derive(Debug)]
pub struct Beam {
    pub beam_id: String,
    pub kind: String,
    pub title: String,
    pub tags: Vec<String>,
    pub body: String,
    pub status: String,
    pub pinned: bool,
    pub updated_at_ms: i64,
}

/// The keys that a beam object is read from.
pub open spec fn is_beam_key(k: Seq<char>) -> bool {
    k == "beam_id"@ || k == "kind"@ || k == "title"@ || k == "tags"@ || k == "body"@ || k
        == "status"@ || k == "pinned"@ || k == "updated_at_ms"@
}

/// The members of `f` make a beam.
pub open spec fn beam_ok(f: Seq<(String, Json)>) -> bool {
    &&& str_at(f, "beam_id"@) is Some
    &&& str_at(f, "kind"@) is Some
    &&& str_at(f, "title"@) is Some
    &&& strings_at(f, "tags"@) is Some
    &&& str_at(f, "body"@) is Some
    &&& str_at(f, "status"@) is Some
    &&& bool_at(f, "pinned"@) is Some
    &&& i64_at(f, "updated_at_ms"@) is Some
}

/// `b` holds exactly what the members of `f` say.
pub open spec fn beam_matches(f: Seq<(String, Json)>, b: Beam) -> bool {
    &&& str_at(f, "beam_id"@) == Some(b.beam_id)
    &&& str_at(f, "kind"@) == Some(b.kind)
    &&& str_at(f, "title"@) == Some(b.title)
    &&& strings_at(f, "tags"@) == Some(b.tags@)
    &&& str_at(f, "body"@) == Some(b.body)
    &&& str_at(f, "status"@) == Some(b.status)
    &&& bool_at(f, "pinned"@) == Some(b.pinned)
    &&& i64_at(f, "updated_at_ms"@) == Some(b.updated_at_ms)
}

impl Beam {
    /// Reads a beam out of a JSON object.
    pub fn from_json(j: &Json) -> (r: Result<Beam, Error>)
        ensures
            r is Ok <==> (j matches Json::Object(f) && beam_ok(f@)),
            r matches Ok(b) ==> (j matches Json::Object(f) && beam_matches(f@, b)),
            r matches Err(e) ==> e is DecodeError,
    {
        match j {
            Json::Object(f) => Beam::from_members(f),
            _ => Err(not_an_object()),
        }
    }

    fn from_members(f: &Vec<(String, Json)>) -> (r: Result<Beam, Error>)
        ensures
            r is Ok <==> beam_ok(f@),
            r matches Ok(b) ==> beam_matches(f@, b),
            r matches Err(e) ==> e is DecodeError,
    {
        let beam_id = member_str(f, "beam_id")?;
        let kind = member_str(f, "kind")?;
        let title = member_str(f, "title")?;
        let tags = member_strings(f, "tags")?;
        let body = member_str(f, "body")?;
        let status = member_str(f, "status")?;
        let pinned = member_bool(f, "pinned")?;
        let updated_at_ms = member_i64(f, "updated_at_ms")?;
        Ok(Beam { beam_id, kind, title, tags, body, status, pinned, updated_at_ms })
    }
}

/// A beam object may carry members the client does not know: inserting
/// them anywhere changes neither whether it decodes nor what it decodes to.
pub proof fn lemma_beam_ignores_unknown_keys(
    a: Seq<(String, Json)>,
    extra: Seq<(String, Json)>,
    b: Seq<(String, Json)>,
)
    requires
        forall|i: int| 0 <= i < extra.len() ==> !is_beam_key(#[trigger] extra[i].0@),
    ensures
        beam_ok(a + extra + b) == beam_ok(a + b),
        forall|x: Beam| beam_matches(a + extra + b, x) == beam_matches(a + b, x),
{
    lemma_lookup_skips(a, extra, b, "beam_id"@);
    lemma_lookup_skips(a, extra, b, "kind"@);
    lemma_lookup_skips(a, extra, b, "title"@);
    lemma_lookup_skips(a, extra, b, "tags"@);
    lemma_lookup_skips(a, extra, b, "body"@);
    lemma_lookup_skips(a, extra, b, "status"@);
    lemma_lookup_skips(a, extra, b, "pinned"@);
    lemma_lookup_skips(a, extra, b, "updated_at_ms"@);
}

/// One page of a beam query, with the number of beams that match in all.
#[derive(Debug)]
pub struct BeamQueryResponse {
    pub beams: Vec<Beam>,
    pub total: usize,
}

/// The members of `f` make a page of beams.
pub open spec fn beam_page_ok(f: Seq<(String, Json)>) -> bool {
    &&& lookup(f, "beams"@) matches Some(Json::Array(v)) && forall|i: int|
        0 <= i < v@.len() ==> (#[trigger] v@[i] matches Json::Object(o) && beam_ok(o@))
    &&& usize_at(f, "total"@) is Some
}

/// `r` holds exactly what the members of `f` say.
pub open spec fn beam_page_matches(f: Seq<(String, Json)>, r: BeamQueryResponse) -> bool {
    &&& lookup(f, "beams"@) matches Some(Json::Array(v)) && r.beams@.len() == v@.len() && forall|
        i: int,
    | 0 <= i < v@.len() ==> (#[trigger] v@[i] matches Json::Object(o) && beam_matches(o@, r.beams@[i]))
    &&& usize_at(f, "total"@) == Some(r.total)
}

/// The same for a page of beams: members other than `beams` and `total`
/// are ignored.
pub proof fn lemma_beam_page_ignores_unknown_keys(
    a: Seq<(String, Json)>,
    extra: Seq<(String, Json)>,
    b: Seq<(String, Json)>,
)
    requires
        forall|i: int|
            0 <= i < extra.len() ==> #[trigger] extra[i].0@ != "beams"@ && extra[i].0@ != "total"@,
    ensures
        beam_page_ok(a + extra + b) == beam_page_ok(a + b),
        forall|x: BeamQueryResponse| beam_page_matches(a + extra + b, x) == beam_page_matches(a + b, x),
{
    lemma_lookup_skips(a, extra, b, "beams"@);
    lemma_lookup_skips(a, extra, b, "total"@);
}

impl BeamQueryResponse {
    /// Reads a page of beams out of a JSON object.
    pub fn from_json(j: &Json) -> (r: Result<BeamQueryResponse, Error>)
        ensures
            r is Ok <==> (j matches Json::Object(f) && beam_page_ok(f@)),
            r matches Ok(p) ==> (j matches Json::Object(f) && beam_page_matches(f@, p)),
            r matches Err(e) ==> e is DecodeError,
    {
        let f = match j {
            Json::Object(f) => f,
            _ => {
                return Err(not_an_object());
            },
        };
        let items = match get_member(f, "beams") {
            Some(Json::Array(items)) => items,
            _ => {
                return Err(bad_member("beams"));
            },
        };
        let mut beams: Vec<Beam> = Vec::new();
        let mut i: usize = 0;
        while i < items.len()
            invariant
                i <= items@.len(),
                beams@.len() == i,
                *j == Json::Object(*f),
                lookup(f@, "beams"@) == Some(Json::Array(*items)),
                forall|k: int|
                    0 <= k < i ==> (#[trigger] items@[k] matches Json::Object(o) && beam_matches(
                        o@,
                        beams@[k],
                    ) && beam_ok(o@)),
            decreases items.len() - i,
        {
            match &items[i] {
                Json::Object(o) => {
                    assert(items@[i as int] == Json::Object(*o));
                    let b = Beam::from_members(o)?;
                    beams.push(b);
                },
                _ => {
                    assert(!(items@[i as int] is Object));
                    return Err(bad_member("beams"));
                },
            }
            i = i + 1;
        }
        let total = member_usize(f, "total")?;
        Ok(BeamQueryResponse { beams, total })
    }
}

// ---------------------------------------------------------------- chat

/// A chat message as the server reports it.
#[derive(Debug)]
pub struct ChatMessage {
    pub id: String,
    pub role: String,
    pub content: String,
    /// Milliseconds since the epoch.
    pub timestamp: i64,
    /// Free-form members, passed through as the server sent them.
    pub metadata: Option<Vec<(String, Json)>>,
}

/// The members of `f` make a chat message.
pub open spec fn message_ok(f: Seq<(String, Json)>) -> bool {
    &&& str_at(f, "id"@) is Some
    &&& str_at(f, "role"@) is Some
    &&& str_at(f, "content"@) is Some
    &&& i64_at(f, "timestamp"@) is Some
    &&& match lookup(f, "metadata"@) {
        None => true,
        Some(Json::Null) => true,
        Some(Json::Object(_)) => true,
        _ => false,
    }
}

/// `m` holds exactly what the members of `f` say.
pub open spec fn message_matches(f: Seq<(String, Json)>, m: ChatMessage) -> bool {
    &&& str_at(f, "id"@) == Some(m.id)
    &&& str_at(f, "role"@) == Some(m.role)
    &&& str_at(f, "content"@) == Some(m.content)
    &&& i64_at(f, "timestamp"@) == Some(m.timestamp)
    &&& match lookup(f, "metadata"@) {
        Some(Json::Object(o)) => m.metadata == Some(o),
        _ => m.metadata is None,
    }
}

/// The keys that a chat message is read from.
pub open spec fn is_message_key(k: Seq<char>) -> bool {
    k == "id"@ || k == "role"@ || k == "content"@ || k == "timestamp"@ || k == "metadata"@
}

/// The same for a chat message.
pub proof fn lemma_message_ignores_unknown_keys(
    a: Seq<(String, Json)>,
    extra: Seq<(String, Json)>,
    b: Seq<(String, Json)>,
)
    requires
        forall|i: int| 0 <= i < extra.len() ==> !is_message_key(#[trigger] extra[i].0@),
    ensures
        message_ok(a + extra + b) == message_ok(a + b),
        forall|x: ChatMessage| message_matches(a + extra + b, x) == message_matches(a + b, x),
{
    lemma_lookup_skips(a, extra, b, "id"@);
    lemma_lookup_skips(a, extra, b, "role"@);
    lemma_lookup_skips(a, extra, b, "content"@);
    lemma_lookup_skips(a, extra, b, "timestamp"@);
    lemma_lookup_skips(a, extra, b, "metadata"@);
}

impl ChatMessage {
    /// Reads a chat message out of a JSON object.
    pub fn from_json(j: Json) -> (r: Result<ChatMessage, Error>)
        ensures
            r is Ok <==> (j matches Json::Object(f) && message_ok(f@)),
            r matches Ok(m) ==> (j matches Json::Object(f) && message_matches(f@, m)),
            r matches Err(e) ==> e is DecodeError,
    {
        match j {
            Json::Object(f) => ChatMessage::from_members(f),
            _ => Err(not_an_object()),
        }
    }

    fn from_members(f: Vec<(String, Json)>) -> (r: Result<ChatMessage, Error>)
        ensures
            r is Ok <==> message_ok(f@),
            r matches Ok(m) ==> message_matches(f@, m),
            r matches Err(e) ==> e is DecodeError,
    {
        let id = member_str(&f, "id")?;
        let role = member_str(&f, "role")?;
        let content = member_str(&f, "content")?;
        let timestamp = member_i64(&f, "timestamp")?;
        let metadata = match take_member(f, "metadata") {
            None => None,
            Some(Json::Null) => None,
            Some(Json::Object(o)) => Some(o),
            Some(_) => {
                return Err(bad_member("metadata"));
            },
        };
        Ok(ChatMessage { id, role, content, timestamp, metadata })
    }
}

/// The answer to a sent message.
#[derive(Debug)]
pub struct SendMessageResponse {
    pub message: ChatMessage,
    /// Set only when the server starts a streamed reply.
    pub stream_id: Option<String>,
}

/// The members of `f` make the answer to a sent message.
pub open spec fn sent_ok(f: Seq<(String, Json)>) -> bool {
    &&& lookup(f, "message"@) matches Some(Json::Object(o)) && message_ok(o@)
    &&& opt_str_ok(f, "stream_id"@)
}

/// `r` holds exactly what the members of `f` say.
pub open spec fn sent_matches(f: Seq<(String, Json)>, r: SendMessageResponse) -> bool {
    &&& lookup(f, "message"@) matches Some(Json::Object(o)) && message_matches(o@, r.message)
    &&& r.stream_id == str_at(f, "stream_id"@)
}

/// The same for the answer to a sent message.
pub proof fn lemma_sent_ignores_unknown_keys(
    a: Seq<(String, Json)>,
    extra: Seq<(String, Json)>,
    b: Seq<(String, Json)>,
)
    requires
        forall|i: int|
            0 <= i < extra.len() ==> #[trigger] extra[i].0@ != "message"@ && extra[i].0@
                != "stream_id"@,
    ensures
        sent_ok(a + extra + b) == sent_ok(a + b),
        forall|x: SendMessageResponse| sent_matches(a + extra + b, x) == sent_matches(a + b, x),
{
    lemma_lookup_skips(a, extra, b, "message"@);
    lemma_lookup_skips(a, extra, b, "stream_id"@);
}

impl SendMessageResponse {
    /// Reads the answer to a sent message out of a JSON object.
    pub fn from_json(j: Json) -> (r: Result<SendMessageResponse, Error>)
        ensures
            r is Ok <==> (j matches Json::Object(f) && sent_ok(f@)),
            r matches Ok(s) ==> (j matches Json::Object(f) && sent_matches(f@, s)),
            r matches Err(e) ==> e is DecodeError,
    {
        let f = match j {
            Json::Object(f) => f,
            _ => {
                return Err(not_an_object());
            },
        };
        let stream_id = member_opt_str(&f, "stream_id")?;
        let message = match take_member(f, "message") {
            Some(Json::Object(o)) => ChatMessage::from_members(o)?,
            _ => {
                return Err(bad_member("message"));
            },
        };
        Ok(SendMessageResponse { message, stream_id })
    }
}

/// One window of the chat history.
#[derive(Debug)]
pub struct ChatHistoryResponse {
    pub messages: Vec<ChatMessage>,
    pub total: usize,
    pub limit: usize,
    pub offset: usize,
}

/// The members of `f` make a window of the chat history.
pub open spec fn history_ok(f: Seq<(String, Json)>) -> bool {
    &&& lookup(f, "messages"@) matches Some(Json::Array(v)) && forall|i: int|
        0 <= i < v@.len() ==> (#[trigger] v@[i] matches Json::Object(o) && message_ok(o@))
    &&& usize_at(f, "total"@) is Some
    &&& usize_at(f, "limit"@) is Some
    &&& usize_at(f, "offset"@) is Some
}

/// `r` holds exactly what the members of `f` say.
pub open spec fn history_matches(f: Seq<(String, Json)>, r: ChatHistoryResponse) -> bool {
    &&& lookup(f, "messages"@) matches Some(Json::Array(v)) && r.messages@.len() == v@.len()
        && forall|i: int|
        0 <= i < v@.len() ==> (#[trigger] v@[i] matches Json::Object(o) && message_matches(
            o@,
            r.messages@[i],
        ))
    &&& usize_at(f, "total"@) == Some(r.total)
    &&& usize_at(f, "limit"@) == Some(r.limit)
    &&& usize_at(f, "offset"@) == Some(r.offset)
}

/// The keys that a chat history window is read from.
pub open spec fn is_history_key(k: Seq<char>) -> bool {
    k == "messages"@ || k == "total"@ || k == "limit"@ || k == "offset"@
}

/// The same for a window of the chat history.
pub proof fn lemma_history_ignores_unknown_keys(
    a: Seq<(String, Json)>,
    extra: Seq<(String, Json)>,
    b: Seq<(String, Json)>,
)
    requires
        forall|i: int| 0 <= i < extra.len() ==> !is_history_key(#[trigger] extra[i].0@),
    ensures
        history_ok(a + extra + b) == history_ok(a + b),
        forall|x: ChatHistoryResponse| history_matches(a + extra + b, x) == history_matches(a + b, x),
{
    lemma_lookup_skips(a, extra, b, "messages"@);
    lemma_lookup_skips(a, extra, b, "total"@);
    lemma_lookup_skips(a, extra, b, "limit"@);
    lemma_lookup_skips(a, extra, b, "offset"@);
}

impl ChatHistoryResponse {
    /// Reads a window of the chat history out of a JSON object.
    pub fn from_json(j: Json) -> (r: Result<ChatHistoryResponse, Error>)
        ensures
            r is Ok <==> (j matches Json::Object(f) && history_ok(f@)),
            r matches Ok(h) ==> (j matches Json::Object(f) && history_matches(f@, h)),
            r matches Err(e) ==> e is DecodeError,
    {
        let f = match j {
            Json::Object(f) => f,
            _ => {
                return Err(not_an_object());
            },
        };
        let ghost fs = f@;
        let total = member_usize(&f, "total")?;
        let limit = member_usize(&f, "limit")?;
        let offset = member_usize(&f, "offset")?;
        let items = match take_member(f, "messages") {
            Some(Json::Array(items)) => items,
            _ => {
                return Err(bad_member("messages"));
            },
        };
        let ghost all = items@;
        let mut rest = items;
        let mut messages: Vec<ChatMessage> = Vec::new();
        assert(all.subrange(0, all.len() as int) =~= all);
        while rest.len() > 0
            invariant
                messages@.len() <= all.len(),
                rest@ == all.subrange(messages@.len() as int, all.len() as int),
                j matches Json::Object(g) && g@ == fs,
                lookup(fs, "messages"@) matches Some(Json::Array(v)) && v@ == all,
                forall|k: int|
                    0 <= k < messages@.len() ==> (#[trigger] all[k] matches Json::Object(o)
                        && message_matches(o@, messages@[k]) && message_ok(o@)),
            decreases rest.len(),
        {
            let item = rest.remove(0);
            assert(item == all[messages@.len() as int]);
            match item {
                Json::Object(o) => {
                    assert(all[messages@.len() as int] == Json::Object(o));
                    let m = ChatMessage::from_members(o)?;
                    messages.push(m);
                },
                _ => {
                    assert(!(all[messages@.len() as int] is Object));
                    return Err(bad_member("messages"));
                },
            }
            assert(rest@ =~= all.subrange(messages@.len() as int, all.len() as int));
        }
        Ok(ChatHistoryResponse { messages, total, limit, offset })
    }
}

// ---------------------------------------------------------------- maps

/// Every member of `f` has a string value.
pub open spec fn string_map_ok(f: Seq<(String, Json)>) -> bool {
    forall|i: int| 0 <= i < f.len() ==> (#[trigger] f[i]).1 is Str
}

/// `r` holds the members of `f`, in order, with their string values.
pub open spec fn string_map_matches(f: Seq<(String, Json)>, r: Seq<(String, String)>) -> bool {
    r.len() == f.len() && forall|i: int|
        0 <= i < f.len() ==> r[i].0 == (#[trigger] f[i]).0 && f[i].1 == Json::Str(r[i].1)
}

/// Reads an object whose members all hold strings, such as a health report.
pub fn string_map_from_json(j: &Json) -> (r: Result<Vec<(String, String)>, Error>)
    ensures
        r is Ok <==> (j matches Json::Object(f) && string_map_ok(f@)),
        r matches Ok(m) ==> (j matches Json::Object(f) && string_map_matches(f@, m@)),
        r matches Err(e) ==> e is DecodeError,
{
    let f = match j {
        Json::Object(f) => f,
        _ => {
            return Err(not_an_object());
        },
    };
    let mut out: Vec<(String, String)> = Vec::new();
    let mut i: usize = 0;
    while i < f.len()
        invariant
            i <= f@.len(),
            out@.len() == i,
            *j == Json::Object(*f),
            forall|k: int|
                0 <= k < i ==> (#[trigger] f@[k]).1 is Str && out@[k].0 == f@[k].0 && f@[k].1
                    == Json::Str(out@[k].1),
        decreases f.len() - i,
    {
        match &f[i].1 {
            Json::Str(s) => {
                out.push((f[i].0.clone(), s.clone()));
            },
            _ => {
                assert(!(f@[i as int].1 is Str));
                return Err(bad_member(f[i].0.as_str()));
            },
        }
        i = i + 1;
    }
    Ok(out)
}

/// Every member of `f` has a boolean value.
pub open spec fn flag_map_ok(f: Seq<(String, Json)>) -> bool {
    forall|i: int| 0 <= i < f.len() ==> (#[trigger] f[i]).1 is Bool
}

/// `r` holds the members of `f`, in order, with their boolean values.
pub open spec fn flag_map_matches(f: Seq<(String, Json)>, r: Seq<(String, bool)>) -> bool {
    r.len() == f.len() && forall|i: int|
        0 <= i < f.len() ==> r[i].0 == (#[trigger] f[i]).0 && f[i].1 == Json::Bool(r[i].1)
}

/// Reads an object whose members all hold booleans, such as the
/// acknowledgement of a pin or a retirement.
pub fn flag_map_from_json(j: &Json) -> (r: Result<Vec<(String, bool)>, Error>)
    ensures
        r is Ok <==> (j matches Json::Object(f) && flag_map_ok(f@)),
        r matches Ok(m) ==> (j matches Json::Object(f) && flag_map_matches(f@, m@)),
        r matches Err(e) ==> e is DecodeError,
{
    let f = match j {
        Json::Object(f) => f,
        _ => {
            return Err(not_an_object());
        },
    };
    let mut out: Vec<(String, bool)> = Vec::new();
    let mut i: usize = 0;
    while i < f.len()
        invariant
            i <= f@.len(),
            out@.len() == i,
            *j == Json::Object(*f),
            forall|k: int|
                0 <= k < i ==> (#[trigger] f@[k]).1 is Bool && out@[k].0 == f@[k].0 && f@[k].1
                    == Json::Bool(out@[k].1),
        decreases f.len() - i,
    {
        match &f[i].1 {
            Json::Bool(b) => {
                out.push((f[i].0.clone(), *b));
            },
            _ => {
                assert(!(f@[i as int].1 is Bool));
                return Err(bad_member(f[i].0.as_str()));
            },
        }
        i = i + 1;
    }
    Ok(out)
}

// ---------------------------------------------------------------- requests

/// Filters of a beam query; each one that is unset is left out.
#[derive(Debug, Clone)]
pub struct BeamQuery {
    pub text: Option<String>,
    pub tags: Option<Vec<String>>,
    pub kinds: Option<Vec<String>>,
    pub include_dead: Option<bool>,
    pub limit: Option<usize>,
}

impl Default for BeamQuery {
    fn default() -> (r: BeamQuery)
        ensures
            r.text is None && r.tags is None && r.kinds is None && r.include_dead is None
                && r.limit is None,
    {
        BeamQuery { text: None, tags: None, kinds: None, include_dead: None, limit: None }
    }
}

/// The payload that creates a beam; the server picks the id when none is given.
#[derive(Debug, Clone)]
pub struct CreateBeamRequest {
    pub beam_id: Option<String>,
    pub kind: String,
    pub title: String,
    pub tags: Vec<String>,
    pub body: String,
    pub pinned: Option<bool>,
}

/// The keys of the JSON object that `r` is written as, in order.
pub open spec fn create_beam_keys(r: CreateBeamRequest) -> Seq<Seq<char>> {
    key_if(r.beam_id is Some, "beam_id"@) + seq!["kind"@, "title"@, "tags"@, "body"@] + key_if(
        r.pinned is Some,
        "pinned"@,
    )
}

/// `f` holds every field of `r` that is set, under its own key.
pub open spec fn create_beam_members(f: Seq<(String, Json)>, r: CreateBeamRequest) -> bool {
    &&& r.beam_id matches Some(id) ==> has_member(f, "beam_id"@, Json::Str(id))
    &&& has_member(f, "kind"@, Json::Str(r.kind))
    &&& has_member(f, "title"@, Json::Str(r.title))
    &&& has_strings(f, "tags"@, r.tags@)
    &&& has_member(f, "body"@, Json::Str(r.body))
    &&& r.pinned matches Some(p) ==> has_member(f, "pinned"@, Json::Bool(p))
}

/// A string field as an optional JSON string.
fn opt_str_json(s: &Option<String>) -> (r: Option<Json>)
    ensures
        r is Some <==> s is Some,
        *s matches Some(t) ==> r == Some(Json::Str(t)),
{
    match s {
        Some(t) => Some(Json::Str(t.clone())),
        None => None,
    }
}

/// A list field as an optional JSON array of strings.
fn opt_strings_json(s: &Option<Vec<String>>) -> (r: Option<Json>)
    ensures
        r is Some <==> s is Some,
        *s matches Some(t) ==> (r matches Some(j) && is_string_array(j, t@)),
{
    match s {
        Some(t) => Some(string_array(t)),
        None => None,
    }
}

/// A flag field as an optional JSON boolean.
fn opt_bool_json(b: &Option<bool>) -> (r: Option<Json>)
    ensures
        r is Some <==> b is Some,
        *b matches Some(x) ==> r == Some(Json::Bool(x)),
{
    match b {
        Some(x) => Some(Json::Bool(*x)),
        None => None,
    }
}

impl CreateBeamRequest {
    /// The JSON object sent to create the beam.
    pub fn to_json(&self) -> (r: Json)
        ensures
            r matches Json::Object(f) && keys(f@) == create_beam_keys(*self) && create_beam_members(
                f@,
                *self,
            ),
    {
        let mut f: Vec<(String, Json)> = Vec::new();
        push_present(&mut f, "beam_id", opt_str_json(&self.beam_id));
        push_present(&mut f, "kind", Some(Json::Str(self.kind.clone())));
        push_present(&mut f, "title", Some(Json::Str(self.title.clone())));
        let tags = string_array(&self.tags);
        let ghost tj = tags;
        push_present(&mut f, "tags", Some(tags));
        push_present(&mut f, "body", Some(Json::Str(self.body.clone())));
        push_present(&mut f, "pinned", opt_bool_json(&self.pinned));
        assert(has_member(f@, "tags"@, tj));
        assert(keys(f@) =~= create_beam_keys(*self));
        Json::Object(f)
    }
}

/// A creation payload holds the key of an optional field exactly when the
/// field is set: an unset field is left out, never written as `null`.
pub proof fn lemma_create_beam_omits_unset(r: CreateBeamRequest)
    ensures
        create_beam_keys(r).contains("beam_id"@) <==> r.beam_id is Some,
        create_beam_keys(r).contains("pinned"@) <==> r.pinned is Some,
{
    reveal_strlit("beam_id");
    reveal_strlit("kind");
    reveal_strlit("title");
    reveal_strlit("tags");
    reveal_strlit("body");
    reveal_strlit("pinned");
    let k = create_beam_keys(r);
    let n: int = if r.beam_id is Some { 1 } else { 0 };
    assert(k[n] == "kind"@ && k[n + 1] == "title"@ && k[n + 2] == "tags"@ && k[n + 3] == "body"@);
    if r.beam_id is Some {
        assert(k[0] == "beam_id"@);
    }
    if r.pinned is Some {
        assert(k[n + 4] == "pinned"@);
    }
    assert forall|i: int| 0 <= i < k.len() implies (k[i] == "beam_id"@ ==> r.beam_id is Some) && (
    k[i] == "pinned"@ ==> r.pinned is Some) by {
        if n <= i < n + 4 {
            assert(k[i].len() <= 5);
        }
    }
}

/// A partial update: only the fields that are set change on the server.
#[derive(Debug, Clone)]
pub struct UpdateBeamRequest {
    pub title: Option<String>,
    pub tags: Option<Vec<String>>,
    pub body: Option<String>,
}

impl Default for UpdateBeamRequest {
    fn default() -> (r: UpdateBeamRequest)
        ensures
            r.title is None && r.tags is None && r.body is None,
    {
        UpdateBeamRequest { title: None, tags: None, body: None }
    }
}

/// The keys of the JSON object that `r` is written as, in order.
pub open spec fn update_beam_keys(r: UpdateBeamRequest) -> Seq<Seq<char>> {
    key_if(r.title is Some, "title"@) + key_if(r.tags is Some, "tags"@) + key_if(
        r.body is Some,
        "body"@,
    )
}

/// `f` holds every field of `r` that is set, under its own key.
pub open spec fn update_beam_members(f: Seq<(String, Json)>, r: UpdateBeamRequest) -> bool {
    &&& r.title matches Some(t) ==> has_member(f, "title"@, Json::Str(t))
    &&& r.tags matches Some(t) ==> has_strings(f, "tags"@, t@)
    &&& r.body matches Some(b) ==> has_member(f, "body"@, Json::Str(b))
}

impl UpdateBeamRequest {
    /// The JSON object sent to update the beam.
    pub fn to_json(&self) -> (r: Json)
        ensures
            r matches Json::Object(f) && keys(f@) == update_beam_keys(*self) && update_beam_members(
                f@,
                *self,
            ),
    {
        let mut f: Vec<(String, Json)> = Vec::new();
        push_present(&mut f, "title", opt_str_json(&self.title));
        let tags = opt_strings_json(&self.tags);
        let ghost tj = tags;
        push_present(&mut f, "tags", tags);
        push_present(&mut f, "body", opt_str_json(&self.body));
        assert(self.tags is Some ==> has_member(f@, "tags"@, tj->Some_0));
        assert(keys(f@) =~= update_beam_keys(*self));
        Json::Object(f)
    }
}

/// An update payload holds the key of a field exactly when the field is set.
pub proof fn lemma_update_beam_omits_unset(r: UpdateBeamRequest)
    ensures
        update_beam_keys(r).contains("title"@) <==> r.title is Some,
        update_beam_keys(r).contains("tags"@) <==> r.tags is Some,
        update_beam_keys(r).contains("body"@) <==> r.body is Some,
{
    reveal_strlit("title");
    reveal_strlit("tags");
    reveal_strlit("body");
    let k = update_beam_keys(r);
    let n: int = if r.title is Some { 1 } else { 0 };
    let m: int = if r.tags is Some { n + 1 } else { n };
    if r.title is Some {
        assert(k[0] == "title"@);
    }
    if r.tags is Some {
        assert(k[n] == "tags"@);
    }
    if r.body is Some {
        assert(k[m] == "body"@);
    }
    assert("tags"@[0] != "body"@[0]);
}

/// The payload of the irreversible removal of a beam.
#[derive(Debug, Clone)]
pub struct TombstoneBeamRequest {
    pub reason_code: String,
    pub approval_token: Option<String>,
}

/// The keys of the JSON object that `r` is written as, in order.
pub open spec fn tombstone_keys(r: TombstoneBeamRequest) -> Seq<Seq<char>> {
    seq!["reason_code"@] + key_if(r.approval_token is Some, "approval_token"@)
}

/// `f` holds every field of `r` that is set, under its own key.
pub open spec fn tombstone_members(f: Seq<(String, Json)>, r: TombstoneBeamRequest) -> bool {
    &&& has_member(f, "reason_code"@, Json::Str(r.reason_code))
    &&& r.approval_token matches Some(t) ==> has_member(f, "approval_token"@, Json::Str(t))
}

/// A tombstone payload holds `approval_token` exactly when it is set.
pub proof fn lemma_tombstone_omits_unset(r: TombstoneBeamRequest)
    ensures
        tombstone_keys(r).contains("approval_token"@) <==> r.approval_token is Some,
{
    reveal_strlit("reason_code");
    reveal_strlit("approval_token");
    let k = tombstone_keys(r);
    assert(k[0] == "reason_code"@);
    if r.approval_token is Some {
        assert(k[1] == "approval_token"@);
    }
}

impl TombstoneBeamRequest {
    /// The JSON object sent to tombstone the beam.
    pub fn to_json(&self) -> (r: Json)
        ensures
            r matches Json::Object(f) && keys(f@) == tombstone_keys(*self) && tombstone_members(
                f@,
                *self,
            ),
    {
        let mut f: Vec<(String, Json)> = Vec::new();
        push_present(&mut f, "reason_code", Some(Json::Str(self.reason_code.clone())));
        push_present(&mut f, "approval_token", opt_str_json(&self.approval_token));
        assert(keys(f@) =~= tombstone_keys(*self));
        Json::Object(f)
    }
}

} // verus!
