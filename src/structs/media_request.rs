use vstd::prelude::*;

use crate::structs::text::{owned, text_eq};

verus! {

/// What the service is asked to download.
#[derive(Debug, Clone, Copy, PartialEq, Eq, Structural)]
pub enum DownloadMode {
    Auto,
    Audio,
    Mute,
}

/// The wire text of each mode.
pub open spec fn mode_text(m: DownloadMode) -> Seq<char> {
    match m {
        DownloadMode::Auto => "auto"@,
        DownloadMode::Audio => "audio"@,
        DownloadMode::Mute => "mute"@,
    }
}

/// The mode whose wire text is `s`, if any.
pub open spec fn mode_of(s: Seq<char>) -> Option<DownloadMode> {
    if s == "auto"@ {
        Some(DownloadMode::Auto)
    } else if s == "audio"@ {
        Some(DownloadMode::Audio)
    } else if s == "mute"@ {
        Some(DownloadMode::Mute)
    } else {
        None
    }
}

impl DownloadMode {
    pub fn to_string(&self) -> (r: &'static str)
        ensures
            r@ == mode_text(*self),
    {
        match self {
            DownloadMode::Auto => "auto",
            DownloadMode::Audio => "audio",
            DownloadMode::Mute => "mute",
        }
    }

    pub fn from_str(input: &str) -> (r: Option<DownloadMode>)
        ensures
            r == mode_of(input@),
    {
        if text_eq(input, "auto") {
            Some(DownloadMode::Auto)
        } else if text_eq(input, "audio") {
            Some(DownloadMode::Audio)
        } else if text_eq(input, "mute") {
            Some(DownloadMode::Mute)
        } else {
            None
        }
    }
}

/// Reading the wire text of a mode gives the mode back, and only the three
/// wire texts name a mode.
pub proof fn lemma_mode_text_round_trip(m: DownloadMode, s: Seq<char>)
    ensures
        mode_of(mode_text(m)) == Some(m),
        mode_of(s) is Some <==> (s == "auto"@ || s == "audio"@ || s == "mute"@),
        mode_of(s) matches Some(k) ==> mode_text(k) == s,
{
    reveal_strlit("auto");
    reveal_strlit("audio");
    reveal_strlit("mute");
    assert("auto"@[1] != "audio"@[1] || "auto"@.len() != "audio"@.len());
    assert("auto"@[0] != "mute"@[0]);
    assert("audio"@.len() != "mute"@.len());
}

/// The options of one extraction request. Only `url` is required; an option
/// left at `None` is left out of the request body, so that the service's own
/// default applies.
#[derive(Debug, Clone, Default)]
pub struct MediaRequestData {
    pub url: String,
    pub video_quality: Option<String>,
    pub audio_format: Option<String>,
    pub audio_bitrate: Option<String>,
    pub filename_style: Option<String>,
    pub download_mode: Option<String>,
    pub youtube_video_codec: Option<String>,
    pub youtube_dub_lang: Option<String>,
    pub always_proxy: Option<bool>,
    pub disable_metadata: Option<bool>,
    pub tiktok_full_audio: Option<bool>,
    pub tiktok_h265: Option<bool>,
    pub twitter_gif: Option<bool>,
    pub youtube_hls: Option<bool>,
}

/// The value of one member of a request body.
#[derive(Debug, Clone, PartialEq)]
pub enum FieldValue {
    Text(String),
    Flag(bool),
}

/// A request body: each member's name and value, in order.
pub open spec fn fields_view(fields: Seq<(String, FieldValue)>) -> Seq<(Seq<char>, FieldValue)> {
    fields.map_values(|p: (String, FieldValue)| (p.0@, p.1))
}

/// The JSON text of an object with the given members.
pub uninterp spec fn json_object_text(fields: Seq<(Seq<char>, FieldValue)>) -> Seq<char>;

/// Relies on serde_json's serialisation of a `serde_json::Map` of strings and
/// booleans: its text is a function of the members alone.
#[verifier::external_body]
fn encode_object(fields: &Vec<(String, FieldValue)>) -> (r: String)
    ensures
        r@ == json_object_text(fields_view(fields@)),
{
    let members: serde_json::Map<String, serde_json::Value> = fields
        .iter()
        .map(|(k, v)| match v {
            FieldValue::Text(t) => (k.clone(), serde_json::Value::String(t.clone())),
            FieldValue::Flag(b) => (k.clone(), serde_json::Value::Bool(*b)),
        })
        .collect();
    serde_json::Value::Object(members).to_string()
}

/// A member for an optional text, where it is set.
pub open spec fn text_member(key: Seq<char>, v: Option<String>) -> Seq<(Seq<char>, FieldValue)> {
    match v {
        Some(t) => seq![(key, FieldValue::Text(t))],
        None => seq![],
    }
}

/// A member for an optional flag, where it is set.
pub open spec fn flag_member(key: Seq<char>, v: Option<bool>) -> Seq<(Seq<char>, FieldValue)> {
    match v {
        Some(b) => seq![(key, FieldValue::Flag(b))],
        None => seq![],
    }
}

/// The members of the request body: `url`, then each option that is set, under
/// its wire name.
pub open spec fn request_fields(d: MediaRequestData) -> Seq<(Seq<char>, FieldValue)> {
    seq![("url"@, FieldValue::Text(d.url))]
        + text_member("videoQuality"@, d.video_quality)
        + text_member("audioFormat"@, d.audio_format)
        + text_member("audioBitrate"@, d.audio_bitrate)
        + text_member("filenameStyle"@, d.filename_style)
        + text_member("downloadMode"@, d.download_mode)
        + text_member("youtubeVideoCodec"@, d.youtube_video_codec)
        + text_member("youtubeDubLang"@, d.youtube_dub_lang)
        + flag_member("alwaysProxy"@, d.always_proxy)
        + flag_member("disableMetadata"@, d.disable_metadata)
        + flag_member("tiktokFullAudio"@, d.tiktok_full_audio)
        + flag_member("tiktokH265"@, d.tiktok_h265)
        + flag_member("twitterGif"@, d.twitter_gif)
        + flag_member("youtubeHLS"@, d.youtube_hls)
}

fn push_text(out: &mut Vec<(String, FieldValue)>, key: &str, v: &Option<String>)
    ensures
        fields_view(final(out)@) == fields_view(old(out)@) + text_member(key@, *v),
{
    if let Some(t) = v {
        let ghost before = out@;
        out.push((owned(key), FieldValue::Text(t.clone())));
        assert(fields_view(out@) == fields_view(before) + text_member(key@, *v));
    } else {
        assert(fields_view(out@) == fields_view(out@) + text_member(key@, *v));
    }
}

fn push_flag(out: &mut Vec<(String, FieldValue)>, key: &str, v: Option<bool>)
    ensures
        fields_view(final(out)@) == fields_view(old(out)@) + flag_member(key@, v),
{
    if let Some(b) = v {
        let ghost before = out@;
        out.push((owned(key), FieldValue::Flag(b)));
        assert(fields_view(out@) == fields_view(before) + flag_member(key@, v));
    } else {
        assert(fields_view(out@) == fields_view(out@) + flag_member(key@, v));
    }
}

impl MediaRequestData {
    /// The members of the request body.
    pub fn fields(&self) -> (r: Vec<(String, FieldValue)>)
        ensures
            fields_view(r@) == request_fields(*self),
    {
        let mut out: Vec<(String, FieldValue)> = Vec::new();
        out.push((owned("url"), FieldValue::Text(self.url.clone())));
        assert(fields_view(out@) == seq![("url"@, FieldValue::Text(self.url))]);
        push_text(&mut out, "videoQuality", &self.video_quality);
        push_text(&mut out, "audioFormat", &self.audio_format);
        push_text(&mut out, "audioBitrate", &self.audio_bitrate);
        push_text(&mut out, "filenameStyle", &self.filename_style);
        push_text(&mut out, "downloadMode", &self.download_mode);
        push_text(&mut out, "youtubeVideoCodec", &self.youtube_video_codec);
        push_text(&mut out, "youtubeDubLang", &self.youtube_dub_lang);
        push_flag(&mut out, "alwaysProxy", self.always_proxy);
        push_flag(&mut out, "disableMetadata", self.disable_metadata);
        push_flag(&mut out, "tiktokFullAudio", self.tiktok_full_audio);
        push_flag(&mut out, "tiktokH265", self.tiktok_h265);
        push_flag(&mut out, "twitterGif", self.twitter_gif);
        push_flag(&mut out, "youtubeHLS", self.youtube_hls);
        out
    }

    /// The JSON text of the request body.
    pub fn to_json(&self) -> (r: String)
        ensures
            r@ == json_object_text(request_fields(*self)),
    {
        let fields = self.fields();
        encode_object(&fields)
    }
}

/// A request with only its `url` set has a body of exactly one member, `url`.
pub proof fn lemma_url_only_body(d: MediaRequestData)
    requires
        d.video_quality is None,
        d.audio_format is None,
        d.audio_bitrate is None,
        d.filename_style is None,
        d.download_mode is None,
        d.youtube_video_codec is None,
        d.youtube_dub_lang is None,
        d.always_proxy is None,
        d.disable_metadata is None,
        d.tiktok_full_audio is None,
        d.tiktok_h265 is None,
        d.twitter_gif is None,
        d.youtube_hls is None,
    ensures
        request_fields(d) == seq![("url"@, FieldValue::Text(d.url))],
{
    assert(request_fields(d) =~= seq![("url"@, FieldValue::Text(d.url))]);
}

} // verus!
