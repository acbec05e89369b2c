use vstd::prelude::*;

verus! {

/// Errors raised by the login exchange.
#[derive(Debug, Clone, PartialEq)]
pub enum AuthErrors {
    WrongCreds,
    TooManyFailedAttempts,
    MiscError(String),
}

impl AuthErrors {
    pub open spec fn spec_message(&self) -> Seq<char> {
        match self {
            AuthErrors::WrongCreds => "The credentials are wrong."@,
            AuthErrors::TooManyFailedAttempts => "The user was banned for a while because there were too many failed login attempts."@,
            AuthErrors::MiscError(message) => message@,
        }
    }

    pub fn err_message(&self) -> (r: String)
        ensures
            r@ == self.spec_message(),
    {
        match self {
            AuthErrors::WrongCreds => "The credentials are wrong.".to_owned(),
            AuthErrors::TooManyFailedAttempts => "The user was banned for a while because there were too many failed login attempts.".to_owned(),
            AuthErrors::MiscError(message) => message.clone(),
        }
    }
}

/// Transport and serialization errors, each carrying the underlying message.
#[derive(Debug, Clone, PartialEq)]
pub enum MiscErrors {
    ReqwestError(String),
    JsonSerdeError(String),
}

impl MiscErrors {
    pub open spec fn spec_message(&self) -> Seq<char> {
        match self {
            MiscErrors::ReqwestError(e) => "there was an error during a request. "@ + e@,
            MiscErrors::JsonSerdeError(e) => "there was an error during serialization. "@ + e@,
        }
    }

    pub fn err_message(&self) -> (r: String)
        ensures
            r@ == self.spec_message(),
    {
        match self {
            MiscErrors::ReqwestError(e) => {
                let mut m = "there was an error during a request. ".to_owned();
                m.append(e.as_str());
                m
            },
            MiscErrors::JsonSerdeError(e) => {
                let mut m = "there was an error during serialization. ".to_owned();
                m.append(e.as_str());
                m
            },
        }
    }
}

/// Errors of the torrent-submission pipeline.
#[derive(Debug, Clone, PartialEq)]
pub enum TorrentErrors {
    TorrentsNotSet,
    TorrentFilePathError,
}

impl TorrentErrors {
    pub open spec fn spec_message(&self) -> Seq<char> {
        match self {
            TorrentErrors::TorrentsNotSet => "you didn't set any torrents."@,
            TorrentErrors::TorrentFilePathError => "the file path for the torrent file was wrong, malformed, or the file couldn't be read."@,
        }
    }

    pub fn err_message(&self) -> (r: String)
        ensures
            r@ == self.spec_message(),
    {
        match self {
            TorrentErrors::TorrentsNotSet => "you didn't set any torrents.".to_owned(),
            TorrentErrors::TorrentFilePathError => "the file path for the torrent file was wrong, malformed, or the file couldn't be read.".to_owned(),
        }
    }
}

/// Errors of the per-endpoint layer.
#[derive(Debug, Clone, PartialEq)]
pub enum ApiErrors {
    TorrentError(TorrentErrors),
}

impl ApiErrors {
    pub open spec fn spec_message(&self) -> Seq<char> {
        match self {
            ApiErrors::TorrentError(torrent_errors) => torrent_errors.spec_message(),
        }
    }

    pub fn err_message(&self) -> (r: String)
        ensures
            r@ == self.spec_message(),
    {
        match self {
            ApiErrors::TorrentError(torrent_errors) => torrent_errors.err_message(),
        }
    }
}

/// The library's top-level error value.
#[derive(Debug, Clone, PartialEq)]
pub enum Error {
    AuthError(AuthErrors),
    MiscError(MiscErrors),
    ApiError(ApiErrors),
}

impl Error {
    pub open spec fn spec_message(&self) -> Seq<char> {
        match self {
            Error::AuthError(auth_errors) => auth_errors.spec_message(),
            Error::MiscError(misc_errors) => misc_errors.spec_message(),
            Error::ApiError(api_errors) => api_errors.spec_message(),
        }
    }

    pub fn err_message(&self) -> (r: String)
        ensures
            r@ == self.spec_message(),
    {
        match self {
            Error::AuthError(auth_errors) => auth_errors.err_message(),
            Error::MiscError(misc_errors) => misc_errors.err_message(),
            Error::ApiError(api_errors) => api_errors.err_message(),
        }
    }

    /// The single-level image of this error under the flattening table.
    pub open spec fn spec_flatten(&self) -> FlatError {
        match self {
            Error::AuthError(auth_errors) => match auth_errors {
                AuthErrors::WrongCreds => FlatError::WrongCreds,
                AuthErrors::TooManyFailedAttempts => FlatError::TooManyFailedAttempts,
                AuthErrors::MiscError(s) => FlatError::MiscAuthError(*s),
            },
            Error::MiscError(misc_errors) => match misc_errors {
                MiscErrors::ReqwestError(s) => FlatError::ReqwestError(*s),
                MiscErrors::JsonSerdeError(s) => FlatError::JsonSerdeError(*s),
            },
            Error::ApiError(api_errors) => match api_errors {
                ApiErrors::TorrentError(torrent_errors) => match torrent_errors {
                    TorrentErrors::TorrentsNotSet => FlatError::TorrentsNotSet,
                    TorrentErrors::TorrentFilePathError => FlatError::TorrentFilePathError,
                },
            },
        }
    }

    pub fn flatten_err(&self) -> (r: FlatError)
        ensures
            r == self.spec_flatten(),
    {
        match self {
            Error::AuthError(auth_errors) => match auth_errors {
                AuthErrors::WrongCreds => FlatError::WrongCreds,
                AuthErrors::TooManyFailedAttempts => FlatError::TooManyFailedAttempts,
                AuthErrors::MiscError(s) => FlatError::MiscAuthError(s.clone()),
            },
            Error::MiscError(misc_errors) => match misc_errors {
                MiscErrors::ReqwestError(s) => FlatError::ReqwestError(s.clone()),
                MiscErrors::JsonSerdeError(s) => FlatError::JsonSerdeError(s.clone()),
            },
            Error::ApiError(api_errors) => match api_errors {
                ApiErrors::TorrentError(torrent_errors) => match torrent_errors {
                    TorrentErrors::TorrentsNotSet => FlatError::TorrentsNotSet,
                    TorrentErrors::TorrentFilePathError => FlatError::TorrentFilePathError,
                },
            },
        }
    }
}

/// The same error taxonomy without nesting.
#[derive(Debug, Clone, PartialEq)]
pub enum FlatError {
    TorrentsNotSet,
    TorrentFilePathError,
    WrongCreds,
    TooManyFailedAttempts,
    MiscAuthError(String),
    ReqwestError(String),
    JsonSerdeError(String),
}

impl FlatError {
    /// The nested image of this error: the inverse of the flattening table,
    /// variant for variant and payload for payload.
    pub open spec fn spec_unflatten(&self) -> Error {
        match self {
            FlatError::TorrentsNotSet => Error::ApiError(
                ApiErrors::TorrentError(TorrentErrors::TorrentsNotSet),
            ),
            FlatError::TorrentFilePathError => Error::ApiError(
                ApiErrors::TorrentError(TorrentErrors::TorrentFilePathError),
            ),
            FlatError::WrongCreds => Error::AuthError(AuthErrors::WrongCreds),
            FlatError::TooManyFailedAttempts => Error::AuthError(AuthErrors::TooManyFailedAttempts),
            FlatError::MiscAuthError(err) => Error::AuthError(AuthErrors::MiscError(*err)),
            FlatError::ReqwestError(error) => Error::MiscError(MiscErrors::ReqwestError(*error)),
            FlatError::JsonSerdeError(error) => Error::MiscError(MiscErrors::JsonSerdeError(*error)),
        }
    }

    pub fn unflatten_err(&self) -> (r: Error)
        ensures
            r == self.spec_unflatten(),
    {
        match self {
            FlatError::TorrentsNotSet => Error::ApiError(
                ApiErrors::TorrentError(TorrentErrors::TorrentsNotSet),
            ),
            FlatError::TorrentFilePathError => Error::ApiError(
                ApiErrors::TorrentError(TorrentErrors::TorrentFilePathError),
            ),
            FlatError::WrongCreds => Error::AuthError(AuthErrors::WrongCreds),
            FlatError::TooManyFailedAttempts => Error::AuthError(AuthErrors::TooManyFailedAttempts),
            FlatError::MiscAuthError(err) => Error::AuthError(AuthErrors::MiscError(err.clone())),
            FlatError::ReqwestError(error) => Error::MiscError(MiscErrors::ReqwestError(error.clone())),
            FlatError::JsonSerdeError(error) => Error::MiscError(
                MiscErrors::JsonSerdeError(error.clone()),
            ),
        }
    }
}

/// Flattening and unflattening round-trip: unflattening the flat image of
/// any error restores the same variant and payload.
pub proof fn lemma_flatten_unflatten_round_trip(e: Error)
    ensures
        e.spec_flatten().spec_unflatten() == e,
{
}

/// The converse round trip: flattening the nested image of any flat error
/// restores it.
pub proof fn lemma_unflatten_flatten_round_trip(f: FlatError)
    ensures
        f.spec_unflatten().spec_flatten() == f,
{
}

} // verus!
