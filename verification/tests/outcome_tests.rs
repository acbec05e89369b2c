use qbittorrent_api::add_torrent::submit_outcome;
use qbittorrent_api::app::{build_info_outcome, endpoint_outcome};
use qbittorrent_api::errors::{Error, MiscErrors};

#[test]
fn submission_succeeds_exactly_on_2xx() {
    assert!(submit_outcome(200, "went wrong.").is_ok());
    assert!(submit_outcome(204, "went wrong.").is_ok());
    assert!(submit_outcome(299, "went wrong.").is_ok());
    assert!(submit_outcome(199, "went wrong.").is_err());
    assert!(submit_outcome(300, "went wrong.").is_err());
}

#[test]
fn submission_error_carries_the_status() {
    let r = submit_outcome(
        403,
        "we dont really know what went wrong, but something with the adding of torrent files.",
    );
    assert_eq!(
        r.unwrap_err(),
        Error::MiscError(MiscErrors::ReqwestError(
            "we dont really know what went wrong, but something with the adding of torrent files. status code: 403"
                .to_string()
        ))
    );
}

#[test]
fn endpoint_succeeds_exactly_on_2xx_with_the_body() {
    assert_eq!(endpoint_outcome(200, "v4.6.0".to_string()).unwrap(), "v4.6.0".to_string());
    assert_eq!(endpoint_outcome(201, "b".to_string()).unwrap(), "b".to_string());
    assert!(endpoint_outcome(404, "ignored".to_string()).is_err());
}

#[test]
fn endpoint_error_carries_the_status() {
    let r = endpoint_outcome(404, "ignored".to_string());
    assert_eq!(
        r.unwrap_err(),
        Error::MiscError(MiscErrors::ReqwestError("no specifications. code: 404".to_string()))
    );
}

#[test]
fn build_info_hands_a_parsed_value_through() {
    let v: serde_json::Value = serde_json::from_str("{\"bitness\":64}").unwrap();
    let r = build_info_outcome(Ok(v.clone())).unwrap();
    assert_eq!(r, v);
}

#[test]
fn build_info_parse_failure_surfaces_as_serialization_error() {
    let r = build_info_outcome(Err("expected value at line 1".to_string()));
    assert_eq!(
        r.unwrap_err(),
        Error::MiscError(MiscErrors::JsonSerdeError("expected value at line 1".to_string()))
    );
}
