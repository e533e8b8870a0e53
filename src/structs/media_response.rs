use vstd::prelude::*;

use crate::structs::json::{
    field, get_optional_text, get_optional_u64, get_text, lookup, member, optional_text_of,
    json_doc, json_error_text, optional_u64_of, parse_json, text_of, Json,
};
use crate::structs::text::{lemma_decimal_reads_back, owned, push_decimal};

verus! {

/// Which of the three kinds of reply the service gave.
#[derive(Debug, Clone, Copy, PartialEq, Eq, Structural)]
pub enum Status {
    Error,
    Picker,
    Redirect,
}

#[derive(Debug, Clone, PartialEq)]
pub struct ErrorContext {
    pub service: Option<String>,
    pub limit: Option<u64>,
}

#[derive(Debug, Clone, PartialEq)]
pub struct ErrorDetails {
    pub code: String,
    pub context: Option<ErrorContext>,
}

#[derive(Debug, Clone, PartialEq)]
pub struct ErrorResponse {
    pub status: String,
    pub error: ErrorDetails,
}

#[derive(Debug, Clone, PartialEq)]
pub struct MediaItem {
    pub kind: String,
    pub url: String,
    pub thumb: Option<String>,
}

#[derive(Debug, Clone, PartialEq)]
pub struct PickerResponse {
    pub status: String,
    pub audio: Option<String>,
    pub audio_filename: Option<String>,
    pub picker: Vec<MediaItem>,
}

#[derive(Debug, Clone, PartialEq)]
pub struct RedirectResponse {
    pub status: String,
    pub url: String,
    pub filename: String,
}

/// A reply of the service: exactly one of the three kinds.
#[derive(Debug, Clone, PartialEq)]
pub enum Response {
    Error(ErrorResponse),
    Picker(PickerResponse),
    Redirect(RedirectResponse),
}

/// The kind of a reply.
pub open spec fn status_of(r: Response) -> Status {
    match r {
        Response::Error(_) => Status::Error,
        Response::Picker(_) => Status::Picker,
        Response::Redirect(_) => Status::Redirect,
    }
}

/// The error context that `j` describes: an object whose `service` is an
/// optional text and whose `limit` is an optional number.
pub open spec fn context_of(j: Json) -> Option<ErrorContext> {
    match j {
        Json::Object(m) => match (
            optional_text_of(lookup(m@, "service"@)),
            optional_u64_of(lookup(m@, "limit"@)),
        ) {
            (Some(service), Some(limit)) => Some(ErrorContext { service, limit }),
            _ => None,
        },
        _ => None,
    }
}

/// An optional context: absent or `null` is no context.
pub open spec fn optional_context_of(j: Option<Json>) -> Option<Option<ErrorContext>> {
    match j {
        None => Some(None),
        Some(Json::Null) => Some(None),
        Some(c) => match context_of(c) {
            Some(x) => Some(Some(x)),
            None => None,
        },
    }
}

/// The error details that `j` describes: a text `code` and an optional `context`.
pub open spec fn details_of(j: Option<Json>) -> Option<ErrorDetails> {
    match j {
        Some(Json::Object(m)) => match (
            text_of(lookup(m@, "code"@)),
            optional_context_of(lookup(m@, "context"@)),
        ) {
            (Some(code), Some(context)) => Some(ErrorDetails { code, context }),
            _ => None,
        },
        _ => None,
    }
}

/// The error reply that `j` describes: a text `status` and an object `error`.
pub open spec fn error_response_of(j: Json) -> Option<ErrorResponse> {
    match j {
        Json::Object(m) => match (text_of(lookup(m@, "status"@)), details_of(lookup(m@, "error"@))) {
            (Some(status), Some(error)) => Some(ErrorResponse { status, error }),
            _ => None,
        },
        _ => None,
    }
}

/// The media item that `j` describes: texts `type` and `url`, an optional `thumb`.
pub open spec fn item_of(j: Json) -> Option<MediaItem> {
    match j {
        Json::Object(m) => match (
            text_of(lookup(m@, "type"@)),
            text_of(lookup(m@, "url"@)),
            optional_text_of(lookup(m@, "thumb"@)),
        ) {
            (Some(kind), Some(url), Some(thumb)) => Some(MediaItem { kind, url, thumb }),
            _ => None,
        },
        _ => None,
    }
}

/// Whether each element of `items` describes a media item.
pub open spec fn all_items(items: Seq<Json>) -> bool {
    forall|i: int| 0 <= i < items.len() ==> (#[trigger] item_of(items[i])) is Some
}

/// The media items that `items` describe, one for each, in the same order.
pub open spec fn items_of(items: Seq<Json>) -> Seq<MediaItem> {
    items.map_values(|j: Json| item_of(j)->Some_0)
}

/// Whether `j` describes a picker reply: a text `status`, optional texts
/// `audio` and `audio_filename`, and an array `picker` of media items.
pub open spec fn is_picker(j: Json) -> bool {
    &&& j is Object
    &&& text_of(field(j, "status"@)) is Some
    &&& optional_text_of(field(j, "audio"@)) is Some
    &&& optional_text_of(field(j, "audio_filename"@)) is Some
    &&& field(j, "picker"@) matches Some(Json::Array(v)) && all_items(v@)
}

/// Whether `p` is the picker reply that `j` describes.
pub open spec fn picker_matches(j: Json, p: PickerResponse) -> bool {
    &&& is_picker(j)
    &&& text_of(field(j, "status"@)) == Some(p.status)
    &&& optional_text_of(field(j, "audio"@)) == Some(p.audio)
    &&& optional_text_of(field(j, "audio_filename"@)) == Some(p.audio_filename)
    &&& field(j, "picker"@) matches Some(Json::Array(v)) && p.picker@ == items_of(v@)
}

/// The redirect reply that `j` describes: texts `status`, `url` and `filename`.
pub open spec fn redirect_of(j: Json) -> Option<RedirectResponse> {
    match (text_of(field(j, "status"@)), text_of(field(j, "url"@)), text_of(field(j, "filename"@))) {
        (Some(status), Some(url), Some(filename)) => Some(RedirectResponse { status, url, filename }),
        _ => None,
    }
}

/// Whether `j` describes a reply of any of the three kinds.
pub open spec fn is_response(j: Json) -> bool {
    error_response_of(j) is Some || is_picker(j) || redirect_of(j) is Some
}

/// The message for a document that is none of the three kinds of reply.
pub open spec fn no_shape_text() -> Seq<char> {
    "data did not match any variant of untagged enum Response"@
}

/// Whether `r` is the reply that `j` describes. The kinds are tried in a fixed
/// order, error, then picker, then redirect: the first that matches decides.
pub open spec fn response_matches(j: Json, r: Response) -> bool {
    match r {
        Response::Error(e) => error_response_of(j) == Some(e),
        Response::Picker(p) => error_response_of(j) is None && picker_matches(j, p),
        Response::Redirect(d) => error_response_of(j) is None && !is_picker(j) && redirect_of(j)
            == Some(d),
    }
}

impl ErrorContext {
    pub fn from_json(j: &Json) -> (r: Option<ErrorContext>)
        ensures
            r == context_of(*j),
    {
        match j {
            Json::Object(m) => match (get_optional_text(m, "service"), get_optional_u64(m, "limit")) {
                (Some(service), Some(limit)) => Some(ErrorContext { service, limit }),
                _ => None,
            },
            _ => None,
        }
    }
}

/// `members` with one more member `key` holding `value`, where `key` is new.
fn with_member(members: Vec<(String, Json)>, key: &str, value: Json) -> (r: Vec<(String, Json)>)
    ensures
        r@ == members@.push((r@.last().0, value)),
        r@.last().0@ == key@,
        forall|k: Seq<char>| k != key@ ==> lookup(r@, k) == lookup(members@, k),
        lookup(members@, key@) is None ==> lookup(r@, key@) == Some(value),
{
    let mut r = members;
    let ghost before = r@;
    r.push((owned(key), value));
    proof {
        lemma_lookup_push(before, r@.last(), key@);
        assert forall|k: Seq<char>| k != key@ implies lookup(r@, k) == lookup(before, k) by {
            lemma_lookup_push(before, r@.last(), k);
        }
    }
    r
}

/// Looking up in a sequence with one more member at the end.
proof fn lemma_lookup_push(members: Seq<(String, Json)>, last: (String, Json), k: Seq<char>)
    ensures
        lookup(members.push(last), k) == match lookup(members, k) {
            Some(v) => Some(v),
            None => if last.0@ == k {
                Some(last.1)
            } else {
                None
            },
        },
    decreases members.len(),
{
    if members.len() == 0 {
        assert(members.push(last).drop_first() =~= members);
    } else {
        assert(members.push(last)[0] == members[0]);
        assert(members.push(last).drop_first() =~= members.drop_first().push(last));
        lemma_lookup_push(members.drop_first(), last, k);
    }
}

/// An optional text as JSON: `null` where it is absent.
fn optional_text_json(v: &Option<String>) -> (r: Json)
    ensures
        optional_text_of(Some(r)) == Some(*v),
{
    match v {
        Some(s) => Json::Str(s.clone()),
        None => Json::Null,
    }
}

impl ErrorContext {
    /// This context as a JSON object.
    pub fn to_json(&self) -> (r: Json)
        ensures
            context_of(r) == Some(*self),
    {
        let service = optional_text_json(&self.service);
        let limit = match self.limit {
            Some(n) => {
                let mut t = String::new();
                push_decimal(&mut t, n);
                proof {
                    lemma_decimal_reads_back(n);
                }
                Json::Number(t)
            },
            None => Json::Null,
        };
        let m = with_member(Vec::new(), "service", service);
        proof {
            reveal_strlit("service");
            reveal_strlit("limit");
            assert("service"@.len() != "limit"@.len());
        }
        let m = with_member(m, "limit", limit);
        Json::Object(m)
    }
}

impl ErrorDetails {
    /// These details as a JSON object.
    pub fn to_json(&self) -> (r: Json)
        ensures
            details_of(Some(r)) == Some(*self),
    {
        let context = match &self.context {
            Some(c) => c.to_json(),
            None => Json::Null,
        };
        let m = with_member(Vec::new(), "code", Json::Str(self.code.clone()));
        proof {
            reveal_strlit("code");
            reveal_strlit("context");
            assert("code"@.len() != "context"@.len());
        }
        let m = with_member(m, "context", context);
        Json::Object(m)
    }

    pub fn from_json(j: Option<&Json>) -> (r: Option<ErrorDetails>)
        ensures
            r == details_of(
                match j {
                    Some(x) => Some(*x),
                    None => None,
                },
            ),
    {
        match j {
            Some(Json::Object(m)) => {
                let code = get_text(m, "code");
                let context = match member(m, "context") {
                    None => Some(None),
                    Some(Json::Null) => Some(None),
                    Some(c) => match ErrorContext::from_json(c) {
                        Some(x) => Some(Some(x)),
                        None => None,
                    },
                };
                match (code, context) {
                    (Some(code), Some(context)) => Some(ErrorDetails { code, context }),
                    _ => None,
                }
            },
            _ => None,
        }
    }
}

impl ErrorResponse {
    /// This reply as a JSON object.
    pub fn to_json(&self) -> (r: Json)
        ensures
            error_response_of(r) == Some(*self),
    {
        let error = self.error.to_json();
        let m = with_member(Vec::new(), "status", Json::Str(self.status.clone()));
        proof {
            reveal_strlit("status");
            reveal_strlit("error");
            assert("status"@.len() != "error"@.len());
        }
        let m = with_member(m, "error", error);
        Json::Object(m)
    }

    pub fn from_json(j: &Json) -> (r: Option<ErrorResponse>)
        ensures
            r == error_response_of(*j),
    {
        match j {
            Json::Object(m) => match (get_text(m, "status"), ErrorDetails::from_json(member(m, "error"))) {
                (Some(status), Some(error)) => Some(ErrorResponse { status, error }),
                _ => None,
            },
            _ => None,
        }
    }
}

impl MediaItem {
    pub fn from_json(j: &Json) -> (r: Option<MediaItem>)
        ensures
            r == item_of(*j),
    {
        match j {
            Json::Object(m) => match (get_text(m, "type"), get_text(m, "url"), get_optional_text(m, "thumb")) {
                (Some(kind), Some(url), Some(thumb)) => Some(MediaItem { kind, url, thumb }),
                _ => None,
            },
            _ => None,
        }
    }
}

/// The media items that `items` describe, where each element describes one.
fn items_from_json(items: &Vec<Json>) -> (r: Option<Vec<MediaItem>>)
    ensures
        match r {
            Some(v) => all_items(items@) && v@ == items_of(items@),
            None => !all_items(items@),
        },
{
    let mut out: Vec<MediaItem> = Vec::new();
    let mut i: usize = 0;
    while i < items.len()
        invariant
            i <= items.len(),
            all_items(items@.take(i as int)),
            out@ == items_of(items@.take(i as int)),
        decreases items.len() - i,
    {
        match MediaItem::from_json(&items[i]) {
            Some(x) => {
                assert(items@.take(i + 1) == items@.take(i as int).push(items@[i as int]));
                out.push(x);
                assert(out@ =~= items_of(items@.take(i + 1)));
            },
            None => {
                return None;
            },
        }
        i = i + 1;
    }
    assert(items@.take(i as int) == items@);
    Some(out)
}

impl PickerResponse {
    pub fn from_json(j: &Json) -> (r: Option<PickerResponse>)
        ensures
            match r {
                Some(p) => picker_matches(*j, p),
                None => !is_picker(*j),
            },
    {
        match j {
            Json::Object(m) => {
                let status = get_text(m, "status");
                let audio = get_optional_text(m, "audio");
                let audio_filename = get_optional_text(m, "audio_filename");
                let picker = match member(m, "picker") {
                    Some(Json::Array(v)) => items_from_json(v),
                    _ => None,
                };
                match (status, audio, audio_filename, picker) {
                    (Some(status), Some(audio), Some(audio_filename), Some(picker)) => Some(
                        PickerResponse { status, audio, audio_filename, picker },
                    ),
                    _ => None,
                }
            },
            _ => None,
        }
    }
}

impl RedirectResponse {
    pub fn from_json(j: &Json) -> (r: Option<RedirectResponse>)
        ensures
            r == redirect_of(*j),
    {
        match j {
            Json::Object(m) => match (get_text(m, "status"), get_text(m, "url"), get_text(m, "filename")) {
                (Some(status), Some(url), Some(filename)) => Some(
                    RedirectResponse { status, url, filename },
                ),
                _ => None,
            },
            _ => None,
        }
    }
}

impl Response {
    pub fn get_status(&self) -> (r: Status)
        ensures
            r == status_of(*self),
    {
        match self {
            Response::Error(_) => Status::Error,
            Response::Picker(_) => Status::Picker,
            Response::Redirect(_) => Status::Redirect,
        }
    }

    /// The reply that `j` describes, trying error, picker and redirect in turn.
    pub fn from_json(j: &Json) -> (r: Option<Response>)
        ensures
            match r {
                Some(x) => response_matches(*j, x),
                None => !is_response(*j),
            },
    {
        if let Some(e) = ErrorResponse::from_json(j) {
            return Some(Response::Error(e));
        }
        if let Some(p) = PickerResponse::from_json(j) {
            return Some(Response::Picker(p));
        }
        if let Some(d) = RedirectResponse::from_json(j) {
            return Some(Response::Redirect(d));
        }
        None
    }

    /// Reads a reply from its JSON text. The error is the JSON reader's message,
    /// or says that the document is none of the three kinds of reply.
    pub fn parse(text: &str) -> (r: Result<Response, String>)
        ensures
            match json_doc(text@) {
                None => r matches Err(m) && m@ == json_error_text(text@),
                Some(j) => if is_response(j) {
                    r matches Ok(x) && response_matches(j, x)
                } else {
                    r matches Err(m) && m@ == no_shape_text()
                },
            },
    {
        match parse_json(text) {
            Ok(j) => match Response::from_json(&j) {
                Some(x) => Ok(x),
                None => Err(owned("data did not match any variant of untagged enum Response")),
            },
            Err(e) => Err(e),
        }
    }
}

/// A document that describes an error reply is read as that error reply, and
/// its status is `Error`.
pub proof fn lemma_error_reply_is_error(j: Json, r: Response)
    requires
        error_response_of(j) is Some,
    ensures
        is_response(j),
        response_matches(j, r) ==> r == Response::Error(error_response_of(j)->Some_0)
            && status_of(r) == Status::Error,
{
}

/// Writing a decoded error reply back as JSON and reading that again gives the
/// same reply.
pub proof fn lemma_error_round_trip(j: Json, e: ErrorResponse, k: Json)
    requires
        response_matches(j, Response::Error(e)),
        error_response_of(k) == Some(e),
    ensures
        is_response(k),
        response_matches(k, Response::Error(e)),
{
}

/// A redirect document (texts `status`, `url` and `filename`, with neither an
/// `error` nor a `picker` member) is read as a redirect reply.
pub proof fn lemma_redirect_reply_is_redirect(j: Json, r: Response)
    requires
        redirect_of(j) is Some,
        field(j, "error"@) is None,
        field(j, "picker"@) is None,
    ensures
        is_response(j),
        response_matches(j, r) ==> status_of(r) == Status::Redirect,
{
}

/// The items of a picker reply are those of the document's `picker` array, in
/// the same order and as many.
pub proof fn lemma_picker_keeps_order(j: Json, p: PickerResponse)
    requires
        response_matches(j, Response::Picker(p)),
    ensures
        field(j, "picker"@) matches Some(Json::Array(v)) && p.picker@.len() == v@.len() && (
        forall|i: int| 0 <= i < v@.len() ==> item_of(#[trigger] v@[i]) == Some(p.picker@[i])),
{
}

} // verus!
