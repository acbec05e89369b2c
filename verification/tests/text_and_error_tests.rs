use qbittorrent_api::errors::{ApiErrors, AuthErrors, Error, FlatError, MiscErrors, TorrentErrors};
use qbittorrent_api::text::{join_with, u64_to_string};
use qbittorrent_api::torrents::{Torrent, TorrentInner, TorrentType};

#[test]
fn join_with_comma() {
    let items = vec!["a".to_string(), "b".to_string(), "c".to_string()];
    assert_eq!(join_with(&items, ","), "a,b,c".to_string());
}

#[test]
fn join_with_no_separator() {
    let items = vec!["magnet:?xt=1".to_string(), "magnet:?xt=2".to_string()];
    assert_eq!(join_with(&items, ""), "magnet:?xt=1magnet:?xt=2".to_string());
}

#[test]
fn join_edge_cases() {
    let empty: Vec<String> = Vec::new();
    assert_eq!(join_with(&empty, ","), "".to_string());
    let single = vec!["only".to_string()];
    assert_eq!(join_with(&single, ","), "only".to_string());
}

#[test]
fn decimal_rendering() {
    assert_eq!(u64_to_string(0), "0".to_string());
    assert_eq!(u64_to_string(7), "7".to_string());
    assert_eq!(u64_to_string(120), "120".to_string());
    assert_eq!(u64_to_string(12345), "12345".to_string());
    assert_eq!(u64_to_string(u64::MAX), "18446744073709551615".to_string());
}

#[test]
fn auth_error_messages() {
    assert_eq!(AuthErrors::WrongCreds.err_message(), "The credentials are wrong.".to_string());
    assert_eq!(
        AuthErrors::TooManyFailedAttempts.err_message(),
        "The user was banned for a while because there were too many failed login attempts."
            .to_string()
    );
    assert_eq!(AuthErrors::MiscError("boom".to_string()).err_message(), "boom".to_string());
}

#[test]
fn misc_error_messages() {
    assert_eq!(
        MiscErrors::ReqwestError("x".to_string()).err_message(),
        "there was an error during a request. x".to_string()
    );
    assert_eq!(
        MiscErrors::JsonSerdeError("y".to_string()).err_message(),
        "there was an error during serialization. y".to_string()
    );
}

#[test]
fn torrent_error_messages() {
    assert_eq!(
        TorrentErrors::TorrentsNotSet.err_message(),
        "you didn't set any torrents.".to_string()
    );
    assert_eq!(
        TorrentErrors::TorrentFilePathError.err_message(),
        "the file path for the torrent file was wrong, malformed, or the file couldn't be read."
            .to_string()
    );
    assert_eq!(
        ApiErrors::TorrentError(TorrentErrors::TorrentsNotSet).err_message(),
        "you didn't set any torrents.".to_string()
    );
    assert_eq!(
        Error::ApiError(ApiErrors::TorrentError(TorrentErrors::TorrentsNotSet)).err_message(),
        "you didn't set any torrents.".to_string()
    );
}

#[test]
fn flatten_and_unflatten_round_trip_on_every_variant() {
    let cases = vec![
        Error::AuthError(AuthErrors::WrongCreds),
        Error::AuthError(AuthErrors::TooManyFailedAttempts),
        Error::AuthError(AuthErrors::MiscError("m".to_string())),
        Error::MiscError(MiscErrors::ReqwestError("r".to_string())),
        Error::MiscError(MiscErrors::JsonSerdeError("bad json".to_string())),
        Error::ApiError(ApiErrors::TorrentError(TorrentErrors::TorrentsNotSet)),
        Error::ApiError(ApiErrors::TorrentError(TorrentErrors::TorrentFilePathError)),
    ];
    for e in cases {
        assert_eq!(e.flatten_err().unflatten_err(), e);
    }
}

#[test]
fn json_error_keeps_its_class_through_the_table() {
    let e = Error::MiscError(MiscErrors::JsonSerdeError("bad json".to_string()));
    assert_eq!(e.flatten_err(), FlatError::JsonSerdeError("bad json".to_string()));
    assert_eq!(
        FlatError::JsonSerdeError("bad json".to_string()).unflatten_err(),
        Error::MiscError(MiscErrors::JsonSerdeError("bad json".to_string()))
    );
}

#[test]
fn torrent_kind_round_trip() {
    let u = Torrent::new("magnet:?xt=1", TorrentType::Url);
    assert!(matches!(u.get_type(), TorrentType::Url));
    assert!(matches!(u.get_inner(), TorrentInner::Url(s) if s == "magnet:?xt=1"));
    let f = Torrent::new("/tmp/f.torrent", TorrentType::TorrentFile);
    assert!(matches!(f.get_type(), TorrentType::TorrentFile));
    assert!(matches!(f.get_inner(), TorrentInner::RawTorrent(s) if s == "/tmp/f.torrent"));
}
