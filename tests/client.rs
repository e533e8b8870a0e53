use cobalt_tools::api::client::{
    download_plan, media_result, services_of, status_result, Client, DownloadError, HttpReply, StatusError,
};
use cobalt_tools::structs::media_error::MediaError;
use cobalt_tools::structs::media_request::MediaRequestData;
use cobalt_tools::structs::media_response::Status;
use cobalt_tools::structs::status::{Cobalt, Git};
use cobalt_tools::structs::StatusResponse;

fn status_with(services: Vec<String>) -> StatusResponse {
    StatusResponse {
        cobalt: Cobalt {
            version: "10".to_string(),
            url: "http://svc.local/".to_string(),
            start_time: "0".to_string(),
            duration_limit: 60,
            services,
        },
        git: Git { branch: "main".to_string(), commit: "c".to_string(), remote: "r".to_string() },
    }
}

fn header<'a>(headers: &'a [(String, String)], name: &str) -> &'a str {
    headers.iter().find(|(n, _)| n == name).map(|(_, v)| v.as_str()).unwrap()
}

#[test]
fn override_credential_is_sent() {
    let c = Client::new("k1".to_string(), "http://svc.local".to_string());
    let d = MediaRequestData { url: "https://x".to_string(), ..Default::default() };
    let r = c.media_request(Some("k2".to_string()), &d);
    assert_eq!(r.url, "http://svc.local");
    let auth = header(&r.headers, "Authorization");
    assert_eq!(auth, "Api-Key k2");
    assert!(!auth.contains("k1"));
    assert_eq!(header(&r.headers, "Content-Type"), "application/json");
    assert_eq!(header(&r.headers, "Accept"), "application/json");
    assert_eq!(header(&r.headers, "User-Agent"), "Cobalt");
    assert_eq!(r.headers.len(), 4);
    assert_eq!(r.body, d.to_json());
}

#[test]
fn default_credential_is_sent_without_override() {
    let c = Client::new("k1".to_string(), "http://svc.local".to_string());
    let d = MediaRequestData { url: "https://x".to_string(), ..Default::default() };
    let r = c.media_request(None, &d);
    assert_eq!(header(&r.headers, "Authorization"), "Api-Key k1");
    assert_eq!(c.resolve_api_key(None), "k1");
    assert_eq!(c.resolve_api_key(Some("k3".to_string())), "k3");
    assert_eq!(c.api_key(), "k1");
    assert_eq!(c.instance_uri(), "http://svc.local");
}

#[test]
fn server_error_is_an_api_error() {
    let r = media_result(HttpReply::Completed {
        status: 500,
        body: Ok(r#"{"status":"error"}"#.to_string()),
    });
    match r {
        Err(MediaError::ApiError(m)) => {
            assert_eq!(m, r#"API request failed with status: 500 | {"status":"error"}"#);
        }
        other => panic!("not an API error: {:?}", other),
    }
}

#[test]
fn api_error_without_body_reports_status_alone() {
    let r = media_result(HttpReply::Completed { status: 404, body: Err("gone".to_string()) });
    assert_eq!(r, Err(MediaError::ApiError("API request failed with status: 404".to_string())));
}

#[test]
fn transport_failure_is_a_request_error() {
    let r = media_result(HttpReply::Failed("connection refused".to_string()));
    assert_eq!(
        r,
        Err(MediaError::RequestError("Failed to send request: connection refused".to_string()))
    );
}

#[test]
fn undecodable_success_is_a_deserialization_error() {
    let r = media_result(HttpReply::Completed { status: 200, body: Ok("{}".to_string()) });
    assert_eq!(
        r,
        Err(MediaError::DeserializationError(
            "Failed to parse response: data did not match any variant of untagged enum Response"
                .to_string()
        ))
    );
    let r = media_result(HttpReply::Completed {
        status: 200,
        body: Ok(r#"{"status":"error"}"#.to_string()),
    });
    assert!(matches!(r, Err(MediaError::DeserializationError(_))));
    match media_result(HttpReply::Completed { status: 200, body: Ok("not json".to_string()) }) {
        Err(MediaError::DeserializationError(m)) => {
            assert!(m.starts_with("Failed to parse response: "));
            assert!(m.len() > "Failed to parse response: ".len());
        }
        other => panic!("not a deserialization error: {:?}", other),
    }
    let r = media_result(HttpReply::Completed { status: 200, body: Err("cut".to_string()) });
    assert_eq!(
        r,
        Err(MediaError::DeserializationError("Failed to parse response: cut".to_string()))
    );
}

#[test]
fn successful_reply_is_decoded() {
    let r = media_result(HttpReply::Completed {
        status: 200,
        body: Ok(r#"{"status":"redirect","url":"https://x","filename":"f"}"#.to_string()),
    });
    assert_eq!(r.unwrap().get_status(), Status::Redirect);
}

#[test]
fn empty_services_are_refused() {
    assert_eq!(services_of(status_with(vec![])), Err(StatusError::NoServices));
}

#[test]
fn services_are_passed_on_unchanged() {
    let names = vec!["tiktok".to_string(), "youtube".to_string(), "bilibili".to_string()];
    assert_eq!(services_of(status_with(names.clone())), Ok(names));
}

#[test]
fn download_without_length_is_refused() {
    assert_eq!(download_plan(None, 200), Err(DownloadError::MissingLength));
}

#[test]
fn download_of_zero_length_is_refused() {
    assert_eq!(download_plan(Some(Ok("0".to_string())), 200), Err(DownloadError::ZeroLength));
    assert_ne!(download_plan(Some(Ok("0".to_string())), 200), download_plan(None, 200));
}

#[test]
fn download_length_and_status_checks() {
    assert_eq!(download_plan(Some(Ok("1024".to_string())), 200), Ok(1024));
    assert_eq!(download_plan(Some(Ok("+12".to_string())), 204), Ok(12));
    assert_eq!(
        download_plan(Some(Ok("abc".to_string())), 200),
        Err(DownloadError::InvalidLength("abc".to_string()))
    );
    assert_eq!(
        download_plan(Some(Ok("18446744073709551616".to_string())), 200),
        Err(DownloadError::InvalidLength("18446744073709551616".to_string()))
    );
    assert_eq!(
        download_plan(Some(Err("bad bytes".to_string())), 200),
        Err(DownloadError::UnreadableLength("bad bytes".to_string()))
    );
    assert_eq!(download_plan(Some(Ok("10".to_string())), 404), Err(DownloadError::HttpStatus(404)));
    assert_eq!(download_plan(None, 404), Err(DownloadError::MissingLength));
}

#[test]
fn status_reply_is_classified() {
    assert_eq!(
        status_result(HttpReply::Failed("timeout".to_string())),
        Err(StatusError::RequestError("timeout".to_string()))
    );
    assert!(matches!(
        status_result(HttpReply::Completed { status: 200, body: Ok("{}".to_string()) }),
        Err(StatusError::DeserializationError(_))
    ));
    let text = r#"{"cobalt":{"version":"1","url":"u","startTime":"0","durationLimit":5,"services":[]},"git":{"branch":"b","commit":"c","remote":"r"}}"#;
    let s = status_result(HttpReply::Completed { status: 200, body: Ok(text.to_string()) }).unwrap();
    assert_eq!(services_of(s), Err(StatusError::NoServices));
}
