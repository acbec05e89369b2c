use vstd::prelude::*;

verus! {

/// The two kinds of source a submission can carry.
#[derive(Debug, Clone)]
pub enum TorrentType {
    Url,
    TorrentFile,
}

/// A source and its kind: a remote URL or a local file path. The file behind
/// a path is read only at submission time, never at construction time.
#[derive(Debug, Clone)]
pub enum TorrentInner {
    Url(String),
    RawTorrent(String),
}

/// One item to submit: a remote URL/magnet string or a reference to a local
/// torrent file.
#[derive(Debug, Clone)]
pub struct Torrent {
    pub inner: TorrentInner,
}

/// The string carried by a source, whichever kind it is.
pub open spec fn inner_str(t: Torrent) -> Seq<char> {
    match t.inner {
        TorrentInner::Url(s) => s@,
        TorrentInner::RawTorrent(s) => s@,
    }
}

pub open spec fn is_url(t: Torrent) -> bool {
    t.inner is Url
}

impl Torrent {
    pub fn new(url_or_path: &str, torrent_type: TorrentType) -> (r: Torrent)
        ensures
            is_url(r) <==> torrent_type is Url,
            inner_str(r) == url_or_path@,
    {
        let s = url_or_path.to_owned();
        match torrent_type {
            TorrentType::Url => Torrent { inner: TorrentInner::Url(s) },
            TorrentType::TorrentFile => Torrent { inner: TorrentInner::RawTorrent(s) },
        }
    }

    pub fn get_inner(&self) -> (r: TorrentInner)
        ensures
            r == self.inner,
    {
        match &self.inner {
            TorrentInner::Url(s) => TorrentInner::Url(s.clone()),
            TorrentInner::RawTorrent(s) => TorrentInner::RawTorrent(s.clone()),
        }
    }

    pub fn get_type(&self) -> (r: TorrentType)
        ensures
            r is Url <==> is_url(*self),
    {
        match self.get_inner() {
            TorrentInner::Url(_) => TorrentType::Url,
            TorrentInner::RawTorrent(_) => TorrentType::TorrentFile,
        }
    }
}

} // verus!
