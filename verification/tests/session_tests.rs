use qbittorrent_api::add_torrent::TorrentAddDescriptorBuilder;
use qbittorrent_api::api::{trim_trailing_slashes, Api};
use qbittorrent_api::cookie::{extract_sid, login_outcome, Cookie};
use qbittorrent_api::creds::Credentials;
use qbittorrent_api::errors::{ApiErrors, AuthErrors, Error, TorrentErrors};
use qbittorrent_api::torrents::{Torrent, TorrentType};

fn offline_api(created_secs: u64) -> Api {
    Api {
        authority: "http://127.0.0.1:1".to_string(),
        cookie: Cookie { cookie: "tok".to_string(), time_of_creation_secs: created_secs },
        reqwest_client: reqwest::blocking::Client::new(),
        credentials: Credentials::new("admin", "123456"),
    }
}

#[test]
fn expiry_boundary_is_inclusive_on_the_expired_side() {
    let c = Cookie { cookie: "abc".to_string(), time_of_creation_secs: 1_000_000 };
    assert!(!c.is_expired(1_000_000 + 3539));
    assert!(c.is_expired(1_000_000 + 3540));
    assert!(c.is_expired(1_000_000 + 9999));
}

#[test]
fn clock_before_creation_counts_as_fresh() {
    let c = Cookie { cookie: "abc".to_string(), time_of_creation_secs: 5000 };
    assert!(!c.is_expired(0));
    assert!(!c.is_expired(5000));
}

#[test]
fn extract_sid_with_attributes() {
    assert_eq!(extract_sid("SID=abc123; path=/"), Some("abc123".to_string()));
}

#[test]
fn extract_sid_runs_to_end_without_semicolon() {
    assert_eq!(extract_sid("SID=abc123"), Some("abc123".to_string()));
    assert_eq!(extract_sid("other=1; SID=zz9"), Some("zz9".to_string()));
}

#[test]
fn extract_sid_absent_or_malformed() {
    assert_eq!(extract_sid("token=abc123; path=/"), None);
    assert_eq!(extract_sid(""), None);
    assert_eq!(extract_sid("SID"), None);
    assert_eq!(extract_sid("SID="), Some("".to_string()));
}

#[test]
fn login_success_yields_token_and_timestamp() {
    let r = login_outcome(200, Some("SID=abc123; path=/".to_string()), 42).unwrap();
    assert_eq!(r.cookie, "abc123".to_string());
    assert_eq!(r.time_of_creation_secs, 42);
}

#[test]
fn login_success_without_cookie_is_wrong_creds() {
    let r = login_outcome(204, None, 0);
    assert_eq!(r.unwrap_err(), Error::AuthError(AuthErrors::WrongCreds));
}

#[test]
fn login_lockout_status() {
    let r = login_outcome(403, None, 0);
    assert_eq!(r.unwrap_err(), Error::AuthError(AuthErrors::TooManyFailedAttempts));
}

#[test]
fn login_unexpected_status_carries_the_code() {
    let r = login_outcome(500, None, 0);
    assert_eq!(
        r.unwrap_err(),
        Error::AuthError(AuthErrors::MiscError(
            "in-library error code: 001. something went wrong. we don't really know what. status code: 500"
                .to_string()
        ))
    );
}

#[test]
fn login_malformed_cookie_header_is_misc_auth_error() {
    let r = login_outcome(200, Some("garbage".to_string()), 0);
    assert_eq!(
        r.unwrap_err(),
        Error::AuthError(AuthErrors::MiscError(
            "the login response's session cookie header is malformed.".to_string()
        ))
    );
}

#[test]
fn cached_token_reused_within_window() {
    let mut api = offline_api(1_000_000);
    let first = api.get_cookie_at(1_000_000 + 10).unwrap();
    assert_eq!(first, "tok".to_string());
    assert_eq!(api.cookie.time_of_creation_secs, 1_000_000);
    let second = api.get_cookie_at(1_000_000 + 3539).unwrap();
    assert_eq!(second, "tok".to_string());
    assert_eq!(api.cookie.time_of_creation_secs, 1_000_000);
}

#[test]
fn expired_window_triggers_one_fresh_login() {
    let mut api = offline_api(1_000_000);
    let r = api.get_cookie_at(1_000_000 + 3540);
    assert!(r.is_err());
    assert_eq!(api.cookie.cookie, "tok".to_string());
    assert_eq!(api.cookie.time_of_creation_secs, 1_000_000);
}

#[test]
fn unreadable_file_fails_before_any_network_work() {
    let mut api = offline_api(u64::MAX - 10);
    let d = TorrentAddDescriptorBuilder::new()
        .torrents(vec![Torrent::new("/definitely/not/there.torrent", TorrentType::TorrentFile)])
        .build()
        .unwrap();
    let r = api.add_torrent(&d, vec![None]);
    assert_eq!(
        r.unwrap_err(),
        Error::ApiError(ApiErrors::TorrentError(TorrentErrors::TorrentFilePathError))
    );
    assert_eq!(api.cookie.cookie, "tok".to_string());
}

#[test]
fn empty_descriptor_lists_send_nothing_and_succeed() {
    let mut api = offline_api(0);
    let d = TorrentAddDescriptorBuilder::new()
        .torrents(vec![Torrent::new("u", TorrentType::Url)])
        .build()
        .unwrap();
    let empty = qbittorrent_api::add_torrent::TorrentAddDescriptor {
        urls: Vec::new(),
        paths: Vec::new(),
        ..d
    };
    let r = api.add_torrent(&empty, Vec::new());
    assert!(r.is_ok());
}

#[test]
fn get_cookie_uses_the_cache_against_the_real_clock() {
    let now = std::time::SystemTime::now()
        .duration_since(std::time::UNIX_EPOCH)
        .unwrap()
        .as_secs();
    let mut api = offline_api(now);
    let token = api.get_cookie().unwrap();
    assert_eq!(token, "tok".to_string());
    assert_eq!(api.cookie.time_of_creation_secs, now);
}

#[test]
fn authority_trailing_slashes_are_trimmed() {
    assert_eq!(trim_trailing_slashes("http://localhost:6011///////"), "http://localhost:6011");
    assert_eq!(trim_trailing_slashes("http://localhost:6011"), "http://localhost:6011");
    assert_eq!(trim_trailing_slashes("///"), "");
    assert_eq!(trim_trailing_slashes(""), "");
}

#[test]
fn reset_keeps_a_fresh_session() {
    let c = Cookie { cookie: "tok".to_string(), time_of_creation_secs: 100 };
    let client = reqwest::blocking::Client::new();
    let creds = Credentials::new("admin", "123456");
    let r = c.reset("http://127.0.0.1:1", &client, &creds, 100 + 3539).unwrap();
    assert_eq!(r.cookie, "tok".to_string());
    assert_eq!(r.time_of_creation_secs, 100);
}

#[test]
fn reset_replaces_an_expired_session() {
    let c = Cookie { cookie: "tok".to_string(), time_of_creation_secs: 100 };
    let client = reqwest::blocking::Client::new();
    let creds = Credentials::new("admin", "123456");
    let r = c.reset("http://127.0.0.1:1", &client, &creds, 100 + 3540);
    assert!(r.is_err());
}

#[test]
fn login_against_unreachable_host_is_a_transport_error() {
    let client = reqwest::blocking::Client::new();
    let creds = Credentials::new("admin", "123456");
    let r = Cookie::new("http://127.0.0.1:1", &client, &creds, 0);
    assert!(matches!(r.unwrap_err(), Error::MiscError(_)));
}

#[test]
fn construction_against_unreachable_host_fails() {
    let r = Api::new_at("http://127.0.0.1:1///", Credentials::new("admin", "123456"), 7);
    assert!(matches!(r.unwrap_err(), Error::MiscError(_)));
}

#[test]
fn credentials_hold_the_pair() {
    let c = Credentials::new("admin", "123456");
    assert_eq!(c.username, "admin".to_string());
    assert_eq!(c.password, "123456".to_string());
}
