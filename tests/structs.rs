use cobalt_tools::structs::json::{parse_json, Json};
use cobalt_tools::structs::media_error::MediaError;
use cobalt_tools::structs::media_request::{DownloadMode, FieldValue, MediaRequestData};
use cobalt_tools::structs::media_response::{
    ErrorContext, ErrorDetails, ErrorResponse, MediaItem, Response, Status,
};
use cobalt_tools::structs::text::parse_u64;
use cobalt_tools::structs::StatusResponse;

fn value(text: &str) -> serde_json::Value {
    serde_json::from_str(text).unwrap()
}

#[test]
fn download_mode_round_trips() {
    for m in [DownloadMode::Auto, DownloadMode::Audio, DownloadMode::Mute] {
        assert_eq!(DownloadMode::from_str(m.to_string()), Some(m));
    }
    assert_eq!(DownloadMode::Auto.to_string(), "auto");
    assert_eq!(DownloadMode::Audio.to_string(), "audio");
    assert_eq!(DownloadMode::Mute.to_string(), "mute");
}

#[test]
fn download_mode_rejects_other_text() {
    for s in ["", "AUTO", "Audio", "mute ", " auto", "video", "autoo"] {
        assert_eq!(DownloadMode::from_str(s), None);
    }
}

#[test]
fn url_only_request_has_one_member() {
    let d = MediaRequestData {
        url: "https://www.youtube.com/watch?v=1lML-Uem6Ns".to_string(),
        ..Default::default()
    };
    assert_eq!(
        d.fields(),
        vec![(
            "url".to_string(),
            FieldValue::Text("https://www.youtube.com/watch?v=1lML-Uem6Ns".to_string())
        )]
    );
    assert_eq!(
        value(&d.to_json()),
        value(r#"{"url":"https://www.youtube.com/watch?v=1lML-Uem6Ns"}"#)
    );
}

#[test]
fn request_body_holds_only_set_options() {
    let d = MediaRequestData {
        url: "u".to_string(),
        filename_style: Some("basic".to_string()),
        download_mode: Some(DownloadMode::Audio.to_string().to_string()),
        always_proxy: Some(true),
        youtube_hls: Some(false),
        ..Default::default()
    };
    assert_eq!(d.fields().len(), 5);
    assert_eq!(
        value(&d.to_json()),
        value(
            r#"{"url":"u","filenameStyle":"basic","downloadMode":"audio","alwaysProxy":true,"youtubeHLS":false}"#
        )
    );
    assert!(!d.to_json().contains("null"));
}

#[test]
fn error_reply_is_read_as_error() {
    let text = r#"{"status":"error","error":{"code":"error.api.link.invalid","context":{"service":"youtube","limit":10}}}"#;
    let r = Response::parse(text).unwrap();
    assert_eq!(r.get_status(), Status::Error);
    assert_eq!(
        r,
        Response::Error(ErrorResponse {
            status: "error".to_string(),
            error: ErrorDetails {
                code: "error.api.link.invalid".to_string(),
                context: Some(ErrorContext { service: Some("youtube".to_string()), limit: Some(10) }),
            },
        })
    );
}

#[test]
fn error_reply_without_context() {
    let r = Response::parse(r#"{"status":"error","error":{"code":"e"}}"#).unwrap();
    match r {
        Response::Error(e) => {
            assert_eq!(e.error.code, "e");
            assert_eq!(e.error.context, None);
        }
        other => panic!("not an error reply: {:?}", other),
    }
    let r = Response::parse(r#"{"status":"error","error":{"code":"e","context":null}}"#).unwrap();
    assert_eq!(r.get_status(), Status::Error);
}

#[test]
fn error_reply_round_trips() {
    let text = r#"{"status":"error","error":{"code":"error.api.fetch.rate","context":{"limit":30}}}"#;
    let r = Response::parse(text).unwrap();
    let e = match &r {
        Response::Error(e) => e.clone(),
        other => panic!("not an error reply: {:?}", other),
    };
    let again = Response::from_json(&e.to_json()).unwrap();
    assert_eq!(again, r);
    let e2 = ErrorResponse {
        status: "error".to_string(),
        error: ErrorDetails { code: "c".to_string(), context: None },
    };
    assert_eq!(Response::from_json(&e2.to_json()), Some(Response::Error(e2.clone())));
}

#[test]
fn redirect_reply_is_read_as_redirect() {
    let r = Response::parse(r#"{"status":"redirect","url":"https://x/y.mp4","filename":"y.mp4"}"#)
        .unwrap();
    assert_eq!(r.get_status(), Status::Redirect);
    match r {
        Response::Redirect(d) => {
            assert_eq!(d.url, "https://x/y.mp4");
            assert_eq!(d.filename, "y.mp4");
            assert_eq!(d.status, "redirect");
        }
        other => panic!("not a redirect reply: {:?}", other),
    }
}

#[test]
fn picker_reply_keeps_item_order() {
    let text = r#"{"status":"picker","audio":"https://a","picker":[
        {"type":"photo","url":"https://3"},
        {"type":"video","url":"https://1","thumb":"https://t"},
        {"type":"gif","url":"https://2"}]}"#;
    let r = Response::parse(text).unwrap();
    assert_eq!(r.get_status(), Status::Picker);
    match r {
        Response::Picker(p) => {
            assert_eq!(p.audio, Some("https://a".to_string()));
            assert_eq!(p.audio_filename, None);
            assert_eq!(
                p.picker,
                vec![
                    MediaItem { kind: "photo".to_string(), url: "https://3".to_string(), thumb: None },
                    MediaItem {
                        kind: "video".to_string(),
                        url: "https://1".to_string(),
                        thumb: Some("https://t".to_string()),
                    },
                    MediaItem { kind: "gif".to_string(), url: "https://2".to_string(), thumb: None },
                ]
            );
        }
        other => panic!("not a picker reply: {:?}", other),
    }
}

#[test]
fn picker_reply_with_no_items() {
    let r = Response::parse(r#"{"status":"picker","picker":[]}"#).unwrap();
    match r {
        Response::Picker(p) => assert!(p.picker.is_empty()),
        other => panic!("not a picker reply: {:?}", other),
    }
}

#[test]
fn unknown_shapes_are_refused() {
    assert!(Response::parse(r#"{"status":"tunnel"}"#).is_err());
    assert!(Response::parse(r#"{"status":"redirect","url":"u"}"#).is_err());
    assert!(Response::parse(r#"{"status":"picker","picker":[{"type":"photo"}]}"#).is_err());
    assert!(Response::parse(r#"{"status":"error","error":{"code":"e","context":{"limit":-1}}}"#).is_err());
    assert!(Response::parse("[]").is_err());
    assert!(Response::parse("not json").is_err());
    assert!(Response::parse("").is_err());
}

#[test]
fn json_numbers_and_nesting() {
    assert_eq!(parse_json("7"), Ok(Json::Number("7".to_string())));
    assert_eq!(parse_json("-7"), Ok(Json::Number("-7".to_string())));
    assert_eq!(parse_json("1.5"), Ok(Json::Number("1.5".to_string())));
    assert_eq!(
        parse_json(r#"{"a":[true,null,"x"]}"#),
        Ok(Json::Object(vec![(
            "a".to_string(),
            Json::Array(vec![Json::Bool(true), Json::Null, Json::Str("x".to_string())])
        )]))
    );
    assert!(parse_json("{").is_err());
}

#[test]
fn status_is_read() {
    let text = r#"{"cobalt":{"version":"10.1","url":"http://svc.local/","startTime":"1700000000000",
        "durationLimit":10800,"services":["youtube","tiktok","bilibili"]},
        "git":{"branch":"main","commit":"abc","remote":"imputnet/cobalt"}}"#;
    let s = StatusResponse::parse(text).unwrap();
    assert_eq!(s.cobalt.version, "10.1");
    assert_eq!(s.cobalt.start_time, "1700000000000");
    assert_eq!(s.cobalt.duration_limit, 10800);
    assert_eq!(s.cobalt.services, vec!["youtube", "tiktok", "bilibili"]);
    assert_eq!(s.git.remote, "imputnet/cobalt");
    assert!(StatusResponse::parse(r#"{"cobalt":{"version":"1"}}"#).is_err());
}

#[test]
fn media_error_messages() {
    assert_eq!(MediaError::RequestError("x".to_string()).message(), "Request Error: x");
    assert_eq!(
        MediaError::DeserializationError("y".to_string()).message(),
        "Deserialization Error: y"
    );
    assert_eq!(MediaError::ApiError("z".to_string()).message(), "API Error: z");
}

#[test]
fn u64_texts_are_read() {
    assert_eq!(parse_u64("0"), Some(0));
    assert_eq!(parse_u64("007"), Some(7));
    assert_eq!(parse_u64("+42"), Some(42));
    assert_eq!(parse_u64("18446744073709551615"), Some(u64::MAX));
    for s in ["", "+", "-1", "1.5", " 1", "1 ", "18446744073709551616", "99999999999999999999"] {
        assert_eq!(parse_u64(s), None);
    }
}

#[test]
fn error_limit_out_of_range_is_refused() {
    let text = r#"{"status":"error","error":{"code":"e","context":{"limit":18446744073709551616}}}"#;
    assert!(Response::parse(text).is_err());
    let text = r#"{"status":"error","error":{"code":"e","context":{"limit":18446744073709551615}}}"#;
    match Response::parse(text).unwrap() {
        Response::Error(e) => assert_eq!(e.error.context.unwrap().limit, Some(u64::MAX)),
        other => panic!("not an error reply: {:?}", other),
    }
}
