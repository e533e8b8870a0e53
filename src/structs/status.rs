use vstd::prelude::*;

use crate::structs::json::{
    field, get_text, get_u64, json_doc, json_error_text, member, parse_json, text_of, u64_of, Json,
};
use crate::structs::text::owned;

verus! {

/// A snapshot of the service's state, as its status endpoint reports it.
#[derive(Debug, Clone, PartialEq)]
pub struct Response {
    pub cobalt: Cobalt,
    pub git: Git,
}

#[derive(Debug, Clone, PartialEq)]
pub struct Cobalt {
    pub version: String,
    pub url: String,
    pub start_time: String,
    pub duration_limit: u64,
    pub services: Vec<String>,
}

#[derive(Debug, Clone, PartialEq)]
pub struct Git {
    pub branch: String,
    pub commit: String,
    pub remote: String,
}

/// Whether each element of `items` is a string.
pub open spec fn all_strings(items: Seq<Json>) -> bool {
    forall|i: int| 0 <= i < items.len() ==> (#[trigger] items[i]) is Str
}

/// The strings that `items` hold, in the same order.
pub open spec fn strings_of(items: Seq<Json>) -> Seq<String> {
    items.map_values(|j: Json| j->Str_0)
}

/// Whether `j` describes the service part of a status: texts `version`, `url`
/// and `startTime`, a number `durationLimit` and an array of texts `services`.
pub open spec fn is_cobalt(j: Json) -> bool {
    &&& j is Object
    &&& text_of(field(j, "version"@)) is Some
    &&& text_of(field(j, "url"@)) is Some
    &&& text_of(field(j, "startTime"@)) is Some
    &&& u64_of(field(j, "durationLimit"@)) is Some
    &&& field(j, "services"@) matches Some(Json::Array(v)) && all_strings(v@)
}

/// Whether `c` is the service part that `j` describes.
pub open spec fn cobalt_matches(j: Json, c: Cobalt) -> bool {
    &&& is_cobalt(j)
    &&& text_of(field(j, "version"@)) == Some(c.version)
    &&& text_of(field(j, "url"@)) == Some(c.url)
    &&& text_of(field(j, "startTime"@)) == Some(c.start_time)
    &&& u64_of(field(j, "durationLimit"@)) == Some(c.duration_limit)
    &&& field(j, "services"@) matches Some(Json::Array(v)) && c.services@ == strings_of(v@)
}

/// The build part that `j` describes: texts `branch`, `commit` and `remote`.
pub open spec fn git_of(j: Json) -> Option<Git> {
    match (text_of(field(j, "branch"@)), text_of(field(j, "commit"@)), text_of(field(j, "remote"@))) {
        (Some(branch), Some(commit), Some(remote)) => Some(Git { branch, commit, remote }),
        _ => None,
    }
}

/// Whether `j` describes a status: an object `cobalt` and an object `git`.
pub open spec fn is_status(j: Json) -> bool {
    &&& field(j, "cobalt"@) matches Some(c) && is_cobalt(c)
    &&& field(j, "git"@) matches Some(g) && git_of(g) is Some
}

/// Whether `s` is the status that `j` describes.
pub open spec fn status_matches(j: Json, s: Response) -> bool {
    &&& field(j, "cobalt"@) matches Some(c) && cobalt_matches(c, s.cobalt)
    &&& field(j, "git"@) matches Some(g) && git_of(g) == Some(s.git)
}

/// The message for a document that is no service status.
pub open spec fn no_status_text() -> Seq<char> {
    "the document does not describe a service status"@
}

/// The strings that `items` hold, where each element is one.
fn strings_from_json(items: &Vec<Json>) -> (r: Option<Vec<String>>)
    ensures
        match r {
            Some(v) => all_strings(items@) && v@ == strings_of(items@),
            None => !all_strings(items@),
        },
{
    let mut out: Vec<String> = Vec::new();
    let mut i: usize = 0;
    while i < items.len()
        invariant
            i <= items.len(),
            all_strings(items@.take(i as int)),
            out@ == strings_of(items@.take(i as int)),
        decreases items.len() - i,
    {
        match &items[i] {
            Json::Str(s) => {
                assert(items@.take(i + 1) == items@.take(i as int).push(items@[i as int]));
                out.push(s.clone());
                assert(out@ =~= strings_of(items@.take(i + 1)));
            },
            _ => {
                return None;
            },
        }
        i = i + 1;
    }
    assert(items@.take(i as int) == items@);
    Some(out)
}

impl Cobalt {
    pub fn from_json(j: &Json) -> (r: Option<Cobalt>)
        ensures
            match r {
                Some(c) => cobalt_matches(*j, c),
                None => !is_cobalt(*j),
            },
    {
        match j {
            Json::Object(m) => {
                let version = get_text(m, "version");
                let url = get_text(m, "url");
                let start_time = get_text(m, "startTime");
                let duration_limit = get_u64(m, "durationLimit");
                let services = match member(m, "services") {
                    Some(Json::Array(v)) => strings_from_json(v),
                    _ => None,
                };
                match (version, url, start_time, duration_limit, services) {
                    (Some(version), Some(url), Some(start_time), Some(duration_limit), Some(services)) => {
                        Some(Cobalt { version, url, start_time, duration_limit, services })
                    },
                    _ => None,
                }
            },
            _ => None,
        }
    }
}

impl Git {
    pub fn from_json(j: &Json) -> (r: Option<Git>)
        ensures
            r == git_of(*j),
    {
        match j {
            Json::Object(m) => match (get_text(m, "branch"), get_text(m, "commit"), get_text(m, "remote")) {
                (Some(branch), Some(commit), Some(remote)) => Some(Git { branch, commit, remote }),
                _ => None,
            },
            _ => None,
        }
    }
}

impl Response {
    pub fn from_json(j: &Json) -> (r: Option<Response>)
        ensures
            match r {
                Some(s) => status_matches(*j, s),
                None => !is_status(*j),
            },
    {
        match j {
            Json::Object(m) => {
                let cobalt = match member(m, "cobalt") {
                    Some(c) => Cobalt::from_json(c),
                    None => None,
                };
                let git = match member(m, "git") {
                    Some(g) => Git::from_json(g),
                    None => None,
                };
                match (cobalt, git) {
                    (Some(cobalt), Some(git)) => Some(Response { cobalt, git }),
                    _ => None,
                }
            },
            _ => None,
        }
    }

    /// Reads a status from its JSON text. The error is the JSON reader's
    /// message, or says that the document is no service status.
    pub fn parse(text: &str) -> (r: Result<Response, String>)
        ensures
            match json_doc(text@) {
                None => r matches Err(m) && m@ == json_error_text(text@),
                Some(j) => if is_status(j) {
                    r matches Ok(s) && status_matches(j, s)
                } else {
                    r matches Err(m) && m@ == no_status_text()
                },
            },
    {
        match parse_json(text) {
            Ok(j) => match Response::from_json(&j) {
                Some(s) => Ok(s),
                None => Err(owned("the document does not describe a service status")),
            },
            Err(e) => Err(e),
        }
    }
}

} // verus!
