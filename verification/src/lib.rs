//! Client library for a qBittorrent-style torrent-management service:
//! cookie-session lifecycle, torrent-submission validation and wire-request
//! assembly, with the HTTP exchange itself behind a small trusted boundary.

pub mod add_torrent;
pub mod api;
pub mod app;
pub mod cookie;
pub mod creds;
pub mod errors;
pub mod http;
pub mod text;
pub mod torrents;

pub use errors::Error;
