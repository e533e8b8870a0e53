use vstd::prelude::*;

use crate::structs::json::{json_doc, json_error_text};
use crate::structs::media_error::MediaError;
use crate::structs::media_request::{json_object_text, request_fields, MediaRequestData};
use crate::structs::media_response::{is_response, no_shape_text, response_matches, Response};
use crate::structs::status::{is_status, no_status_text, status_matches, Response as StatusResponse};
use crate::structs::text::{decimal, joined, owned, parse_u64, push_decimal, u64_text_value};

verus! {

/// A client of the media service: the credential it sends by default and the
/// address of the service. Both are fixed when the client is made.
pub struct Client {
    api_key: String,
    instance_uri: String,
}

/// An HTTP request for the transport to send.
#[derive(Debug, Clone, PartialEq)]
pub struct HttpRequest {
    pub url: String,
    /// Each header's name and value, in the order they are sent.
    pub headers: Vec<(String, String)>,
    pub body: String,
}

/// What the transport made of a request.
#[derive(Debug)]
pub enum HttpReply {
    /// The exchange did not complete (connection, timeout, name lookup, TLS);
    /// the transport's message.
    Failed(String),
    /// The service answered with `status`; `body` is its text, or the message
    /// of the failure to read it.
    Completed { status: u16, body: Result<String, String> },
}

/// Why the status of the service could not be had, or its services listed.
#[derive(Debug, Clone, PartialEq)]
pub enum StatusError {
    /// The exchange did not complete, or its body could not be read.
    RequestError(String),
    /// The answer was not a service status.
    DeserializationError(String),
    /// The service is up but offers no services.
    NoServices,
}

/// Why a download was refused before any byte was written.
#[derive(Debug, Clone, PartialEq)]
pub enum DownloadError {
    /// The answer declares no length.
    MissingLength,
    /// The declared length is not readable as text; the reader's message.
    UnreadableLength(String),
    /// The declared length is not a number.
    InvalidLength(String),
    /// The declared length is zero.
    ZeroLength,
    /// The answer's status is other than success.
    HttpStatus(u16),
}

/// Whether an HTTP status means success.
pub open spec fn is_success(status: u16) -> bool {
    200 <= status <= 299
}

/// The credential sent with a request: the override where one is given.
pub open spec fn resolved_key(default_key: Seq<char>, override_api_key: Option<String>) -> Seq<char> {
    match override_api_key {
        Some(k) => k@,
        None => default_key,
    }
}

/// The headers of an extraction request made with credential `key`.
pub open spec fn media_headers(key: Seq<char>) -> Seq<(Seq<char>, Seq<char>)> {
    seq![
        ("Content-Type"@, "application/json"@),
        ("Accept"@, "application/json"@),
        ("User-Agent"@, "Cobalt"@),
        ("Authorization"@, "Api-Key "@ + key),
    ]
}

/// Each header's name and value, as text.
pub open spec fn headers_view(h: Seq<(String, String)>) -> Seq<(Seq<char>, Seq<char>)> {
    h.map_values(|p: (String, String)| (p.0@, p.1@))
}

/// The message of an `ApiError` for `status`, with the body's text where it
/// could be read.
pub open spec fn api_error_text(status: u16, body: Result<String, String>) -> Seq<char> {
    match body {
        Ok(t) => "API request failed with status: "@ + decimal(status as nat) + " | "@ + t@,
        Err(_) => "API request failed with status: "@ + decimal(status as nat),
    }
}

/// Whether `r` is the outcome of an extraction request for `reply`: a transport
/// failure first, then a status other than success, then a body that is no
/// reply of the service.
pub open spec fn media_outcome(reply: HttpReply, r: Result<Response, MediaError>) -> bool {
    match reply {
        HttpReply::Failed(m) => r matches Err(MediaError::RequestError(t)) && t@
            == "Failed to send request: "@ + m@,
        HttpReply::Completed { status, body } => if !is_success(status) {
            r matches Err(MediaError::ApiError(t)) && t@ == api_error_text(status, body)
        } else {
            match body {
                Err(m) => r matches Err(MediaError::DeserializationError(t)) && t@
                    == "Failed to parse response: "@ + m@,
                Ok(t) => match json_doc(t@) {
                    None => r matches Err(MediaError::DeserializationError(m)) && m@
                        == "Failed to parse response: "@ + json_error_text(t@),
                    Some(j) => if is_response(j) {
                        r matches Ok(x) && response_matches(j, x)
                    } else {
                        r matches Err(MediaError::DeserializationError(m)) && m@
                            == "Failed to parse response: "@ + no_shape_text()
                    },
                },
            }
        },
    }
}

/// Whether `r` is the decision for a download whose answer declared
/// `content_length` and had `status`: the declared length is checked first,
/// then the status.
pub open spec fn download_decision(
    content_length: Option<Result<String, String>>,
    status: u16,
    r: Result<u64, DownloadError>,
) -> bool {
    match content_length {
        None => r == Err::<u64, DownloadError>(DownloadError::MissingLength),
        Some(Err(m)) => r matches Err(DownloadError::UnreadableLength(t)) && t@ == m@,
        Some(Ok(text)) => match u64_text_value(text@) {
            None => r matches Err(DownloadError::InvalidLength(t)) && t@ == text@,
            Some(0) => r == Err::<u64, DownloadError>(DownloadError::ZeroLength),
            Some(n) => if is_success(status) {
                r == Ok::<u64, DownloadError>(n)
            } else {
                r == Err::<u64, DownloadError>(DownloadError::HttpStatus(status))
            },
        },
    }
}

fn push_header(out: &mut Vec<(String, String)>, name: &str, value: String)
    ensures
        headers_view(final(out)@) == headers_view(old(out)@).push((name@, value@)),
{
    out.push((owned(name), value));
    assert(headers_view(final(out)@) =~= headers_view(old(out)@).push((name@, value@)));
}

impl Client {
    /// The credential sent when a request gives none of its own.
    pub closed spec fn spec_api_key(&self) -> Seq<char> {
        self.api_key@
    }

    /// The address of the service.
    pub closed spec fn spec_instance_uri(&self) -> Seq<char> {
        self.instance_uri@
    }

    pub fn new(api_key: String, instance_uri: String) -> (r: Client)
        ensures
            r.spec_api_key() == api_key@,
            r.spec_instance_uri() == instance_uri@,
    {
        Client { api_key, instance_uri }
    }

    pub fn api_key(&self) -> (r: &str)
        ensures
            r@ == self.spec_api_key(),
    {
        self.api_key.as_str()
    }

    pub fn instance_uri(&self) -> (r: &str)
        ensures
            r@ == self.spec_instance_uri(),
    {
        self.instance_uri.as_str()
    }

    /// The credential for one request: the override where given, else the
    /// client's own.
    pub fn resolve_api_key(&self, override_api_key: Option<String>) -> (r: String)
        ensures
            r@ == resolved_key(self.spec_api_key(), override_api_key),
    {
        match override_api_key {
            Some(k) => k,
            None => self.api_key.clone(),
        }
    }

    /// The extraction request to send for `video_data`: a POST to the service's
    /// address with the JSON body of the options, JSON content headers, the
    /// client's name and the resolved credential.
    pub fn media_request(&self, override_api_key: Option<String>, video_data: &MediaRequestData) -> (r:
        HttpRequest)
        ensures
            r.url@ == self.spec_instance_uri(),
            headers_view(r.headers@) == media_headers(
                resolved_key(self.spec_api_key(), override_api_key),
            ),
            r.body@ == json_object_text(request_fields(*video_data)),
    {
        let key = self.resolve_api_key(override_api_key);
        let mut headers: Vec<(String, String)> = Vec::new();
        push_header(&mut headers, "Content-Type", owned("application/json"));
        push_header(&mut headers, "Accept", owned("application/json"));
        push_header(&mut headers, "User-Agent", owned("Cobalt"));
        push_header(&mut headers, "Authorization", joined("Api-Key ", key.as_str()));
        assert(headers_view(headers@) =~= media_headers(
            resolved_key(self.spec_api_key(), override_api_key),
        ));
        HttpRequest { url: self.instance_uri.clone(), headers, body: video_data.to_json() }
    }
}

/// The outcome of an extraction request, from what the transport made of it.
pub fn media_result(reply: HttpReply) -> (r: Result<Response, MediaError>)
    ensures
        media_outcome(reply, r),
{
    match reply {
        HttpReply::Failed(m) => Err(MediaError::RequestError(joined("Failed to send request: ", m.as_str()))),
        HttpReply::Completed { status, body } => {
            if status < 200 || status > 299 {
                let mut t = owned("API request failed with status: ");
                push_decimal(&mut t, status as u64);
                if let Ok(text) = &body {
                    t.append(" | ");
                    t.append(text.as_str());
                }
                return Err(MediaError::ApiError(t));
            }
            match body {
                Err(m) => Err(
                    MediaError::DeserializationError(joined("Failed to parse response: ", m.as_str())),
                ),
                Ok(text) => match Response::parse(text.as_str()) {
                    Ok(x) => Ok(x),
                    Err(m) => Err(
                        MediaError::DeserializationError(joined("Failed to parse response: ", m.as_str())),
                    ),
                },
            }
        },
    }
}

/// The status of the service, from what the transport made of the request for
/// it: a transport failure or an unreadable body is a request error, a body that
/// is no status a deserialization error. The HTTP status is not looked at: an
/// error page fails as a body that is no status.
pub fn status_result(reply: HttpReply) -> (r: Result<StatusResponse, StatusError>)
    ensures
        match reply {
            HttpReply::Failed(m) => r matches Err(StatusError::RequestError(t)) && t@ == m@,
            HttpReply::Completed { status: _, body: Err(m) } => r matches Err(
                StatusError::RequestError(t),
            ) && t@ == m@,
            HttpReply::Completed { status: _, body: Ok(t) } => match json_doc(t@) {
                None => r matches Err(StatusError::DeserializationError(m)) && m@ == json_error_text(
                    t@,
                ),
                Some(j) => if is_status(j) {
                    r matches Ok(s) && status_matches(j, s)
                } else {
                    r matches Err(StatusError::DeserializationError(m)) && m@ == no_status_text()
                },
            },
        },
{
    match reply {
        HttpReply::Failed(m) => Err(StatusError::RequestError(m)),
        HttpReply::Completed { status: _, body } => match body {
            Err(m) => Err(StatusError::RequestError(m)),
            Ok(text) => match StatusResponse::parse(text.as_str()) {
                Ok(s) => Ok(s),
                Err(m) => Err(StatusError::DeserializationError(m)),
            },
        },
    }
}

/// The services a status lists, refused where it lists none.
pub fn services_of(status: StatusResponse) -> (r: Result<Vec<String>, StatusError>)
    ensures
        status.cobalt.services@.len() == 0 ==> r == Err::<Vec<String>, StatusError>(
            StatusError::NoServices,
        ),
        status.cobalt.services@.len() > 0 ==> (r matches Ok(v) && v@ == status.cobalt.services@),
{
    if status.cobalt.services.len() == 0 {
        return Err(StatusError::NoServices);
    }
    Ok(status.cobalt.services)
}

/// Whether a download may go on, from what its answer declared: the length it
/// declares where it may.
pub fn download_plan(content_length: Option<Result<String, String>>, status: u16) -> (r: Result<
    u64,
    DownloadError,
>)
    ensures
        download_decision(content_length, status, r),
{
    let text = match content_length {
        None => return Err(DownloadError::MissingLength),
        Some(Err(m)) => return Err(DownloadError::UnreadableLength(m)),
        Some(Ok(text)) => text,
    };
    let n = match parse_u64(text.as_str()) {
        None => return Err(DownloadError::InvalidLength(text)),
        Some(n) => n,
    };
    if n == 0 {
        return Err(DownloadError::ZeroLength);
    }
    if status < 200 || status > 299 {
        return Err(DownloadError::HttpStatus(status));
    }
    Ok(n)
}

} // verus!
