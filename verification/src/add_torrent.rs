use vstd::prelude::*;

use crate::api::Api;
use crate::cookie::is_login_error;
use crate::errors::{ApiErrors, Error, MiscErrors, TorrentErrors};
use crate::http::{
    ascii_lower, form_file_part, form_new, form_text, form_texts, form_files, post_torrents_add,
};
use crate::text::{dec_str, join_seqs, join_with, opt_str_view, u64_to_string};
use crate::torrents::{inner_str, is_url, Torrent, TorrentInner};

verus! {

/// The strings of the URL-kind sources of `ts`, in their original order.
pub open spec fn url_views(ts: Seq<Torrent>) -> Seq<Seq<char>>
    decreases ts.len(),
{
    if ts.len() == 0 {
        Seq::empty()
    } else {
        url_views(ts.drop_last()) + (if is_url(ts.last()) {
            seq![inner_str(ts.last())]
        } else {
            Seq::empty()
        })
    }
}

/// The strings of the file-path sources of `ts`, in their original order.
pub open spec fn path_views(ts: Seq<Torrent>) -> Seq<Seq<char>>
    decreases ts.len(),
{
    if ts.len() == 0 {
        Seq::empty()
    } else {
        path_views(ts.drop_last()) + (if !is_url(ts.last()) {
            seq![inner_str(ts.last())]
        } else {
            Seq::empty()
        })
    }
}

/// The predicate selecting URL-kind sources.
pub open spec fn url_pred() -> spec_fn(Torrent) -> bool {
    |t: Torrent| is_url(t)
}

/// The predicate selecting file-path sources.
pub open spec fn path_pred() -> spec_fn(Torrent) -> bool {
    |t: Torrent| !is_url(t)
}

/// The function taking a source to the string it carries.
pub open spec fn inner_of() -> spec_fn(Torrent) -> Seq<char> {
    |t: Torrent| inner_str(t)
}

/// Each partition is the ordered filter of the input: the URL list is the
/// subsequence of URL-kind entries in their original relative order, and the
/// file-path list likewise for the other kind.
pub proof fn lemma_partition_is_ordered_filter(ts: Seq<Torrent>)
    ensures
        url_views(ts) == ts.filter(url_pred()).map_values(inner_of()),
        path_views(ts) == ts.filter(path_pred()).map_values(inner_of()),
    decreases ts.len(),
{
    reveal(Seq::filter);
    if ts.len() == 0 {
        assert(url_views(ts) =~= ts.filter(url_pred()).map_values(inner_of()));
        assert(path_views(ts) =~= ts.filter(path_pred()).map_values(inner_of()));
    } else {
        let dl = ts.drop_last();
        lemma_partition_is_ordered_filter(dl);
        if is_url(ts.last()) {
            assert(ts.filter(url_pred()) == dl.filter(url_pred()).push(ts.last()));
            assert(ts.filter(path_pred()) == dl.filter(path_pred()));
        } else {
            assert(ts.filter(url_pred()) == dl.filter(url_pred()));
            assert(ts.filter(path_pred()) == dl.filter(path_pred()).push(ts.last()));
        }
        assert(url_views(ts) =~= ts.filter(url_pred()).map_values(inner_of()));
        assert(path_views(ts) =~= ts.filter(path_pred()).map_values(inner_of()));
    }
}

/// What the descriptor's tags field holds, given the builder's tag list: the
/// entries joined by commas in insertion order, or nothing when the list is
/// absent or empty.
pub open spec fn tags_joined(tags: Option<Vec<String>>) -> Option<Seq<char>> {
    match tags {
        Option::None => Option::None,
        Option::Some(v) => if v@.len() == 0 {
            Option::None
        } else {
            Option::Some(join_seqs(v.deep_view(), ","@))
        },
    }
}

/// The finalized, immutable description of one torrent-add request. Every
/// optional field is either present or absent; an absent field never reaches
/// the wire.
#[derive(Debug, Clone)]
pub struct TorrentAddDescriptor {
    /// URL/magnet sources, in the order they were given.
    pub urls: Vec<String>,
    /// Local torrent-file paths, in the order they were given.
    pub paths: Vec<String>,
    /// Download folder path.
    pub savepath: Option<String>,
    /// Cookie sent to download the .torrent file.
    pub cookie: Option<String>,
    /// Category for the torrent.
    pub category: Option<String>,
    /// Tags for the torrent, already joined by commas.
    pub tags: Option<String>,
    /// Skip hash checking.
    pub skip_checking: Option<bool>,
    /// Add torrents in a paused state.
    pub paused: Option<bool>,
    /// Create the root folder.
    pub root_folder: Option<String>,
    /// Rename the torrent.
    pub rename: Option<String>,
    /// Torrent upload speed limit in bytes per second.
    pub up_limit: Option<u64>,
    /// Torrent download speed limit in bytes per second.
    pub dl_limit: Option<u64>,
    /// Torrent share ratio limit, as the decimal text sent on the wire.
    pub ratio_limit: Option<String>,
    /// Torrent seeding time limit in minutes.
    pub seeding_time_limit: Option<u32>,
    /// Use automatic torrent management.
    pub auto_tmm: Option<bool>,
    /// Enable sequential download.
    pub sequential_download: Option<bool>,
    /// Prioritize the first and last pieces.
    pub first_last_piece_prio: Option<bool>,
}

/// Mutable staging object for a submission: an unpartitioned source list and
/// the optional fields, validated only by `build`.
#[derive(Debug, Clone)]
pub struct TorrentAddDescriptorBuilder {
    pub torrents: Option<Vec<Torrent>>,
    pub savepath: Option<String>,
    pub cookie: Option<String>,
    pub category: Option<String>,
    pub tags: Option<Vec<String>>,
    pub skip_checking: Option<bool>,
    pub paused: Option<bool>,
    pub root_folder: Option<String>,
    pub rename: Option<String>,
    pub up_limit: Option<u64>,
    pub dl_limit: Option<u64>,
    pub ratio_limit: Option<String>,
    pub seeding_time_limit: Option<u32>,
    pub auto_tmm: Option<bool>,
    pub sequential_download: Option<bool>,
    pub first_last_piece_prio: Option<bool>,
}

/// A builder with nothing set.
pub open spec fn empty_builder() -> TorrentAddDescriptorBuilder {
    TorrentAddDescriptorBuilder {
        torrents: None,
        savepath: None,
        cookie: None,
        category: None,
        tags: None,
        skip_checking: None,
        paused: None,
        root_folder: None,
        rename: None,
        up_limit: None,
        dl_limit: None,
        ratio_limit: None,
        seeding_time_limit: None,
        auto_tmm: None,
        sequential_download: None,
        first_last_piece_prio: None,
    }
}

impl TorrentAddDescriptorBuilder {
    /// A builder with nothing set.
    pub fn new() -> (r: TorrentAddDescriptorBuilder)
        ensures
            r == empty_builder(),
    {
        TorrentAddDescriptorBuilder {
            torrents: None,
            savepath: None,
            cookie: None,
            category: None,
            tags: None,
            skip_checking: None,
            paused: None,
            root_folder: None,
            rename: None,
            up_limit: None,
            dl_limit: None,
            ratio_limit: None,
            seeding_time_limit: None,
            auto_tmm: None,
            sequential_download: None,
            first_last_piece_prio: None,
        }
    }

    /// Validates and finalizes the staged submission. With no sources ever
    /// set (or an empty source list) it fails with `TorrentsNotSet` and does
    /// nothing else; otherwise it partitions the sources by kind, keeping
    /// the original relative order inside each partition, joins the tags by
    /// commas (an absent or empty tag list yields no tags field at all), and
    /// hands back the immutable descriptor. Pure: no network access, no file
    /// reads.
    pub fn build(self) -> (r: Result<TorrentAddDescriptor, Error>)
        ensures
            (self.torrents is None || (self.torrents matches Some(ts) && ts@.len() == 0)) <==> r
                == Err::<TorrentAddDescriptor, Error>(
                Error::ApiError(ApiErrors::TorrentError(TorrentErrors::TorrentsNotSet)),
            ),
            self.torrents matches Some(ts) ==> ts@.len() > 0 ==> (r matches Ok(d)
                && d.urls.deep_view() == url_views(ts@) && d.paths.deep_view() == path_views(ts@)
                && opt_str_view(d.tags) == tags_joined(self.tags) && d.savepath == self.savepath
                && d.cookie == self.cookie && d.category == self.category && d.skip_checking
                == self.skip_checking && d.paused == self.paused && d.root_folder
                == self.root_folder && d.rename == self.rename && d.up_limit == self.up_limit
                && d.dl_limit == self.dl_limit && d.ratio_limit == self.ratio_limit
                && d.seeding_time_limit == self.seeding_time_limit && d.auto_tmm == self.auto_tmm
                && d.sequential_download == self.sequential_download && d.first_last_piece_prio
                == self.first_last_piece_prio),
    {
        let TorrentAddDescriptorBuilder {
            torrents,
            savepath,
            cookie,
            category,
            tags,
            skip_checking,
            paused,
            root_folder,
            rename,
            up_limit,
            dl_limit,
            ratio_limit,
            seeding_time_limit,
            auto_tmm,
            sequential_download,
            first_last_piece_prio,
        } = self;
        let ts = match torrents {
            Some(t) => {
                if t.is_empty() {
                    return Err(
                        Error::ApiError(ApiErrors::TorrentError(TorrentErrors::TorrentsNotSet)),
                    );
                }
                t
            },
            None => {
                return Err(Error::ApiError(ApiErrors::TorrentError(TorrentErrors::TorrentsNotSet)));
            },
        };
        let mut urls: Vec<String> = Vec::new();
        let mut paths: Vec<String> = Vec::new();
        let mut i: usize = 0;
        while i < ts.len()
            invariant
                i <= ts@.len(),
                urls.deep_view() == url_views(ts@.take(i as int)),
                paths.deep_view() == path_views(ts@.take(i as int)),
            decreases ts@.len() - i,
        {
            let ghost urls_pre = urls.deep_view();
            let ghost paths_pre = paths.deep_view();
            match &ts[i].inner {
                TorrentInner::Url(u) => urls.push(u.clone()),
                TorrentInner::RawTorrent(p) => paths.push(p.clone()),
            }
            proof {
                assert(ts@.take(i + 1).drop_last() =~= ts@.take(i as int));
                assert(ts@.take(i + 1).last() == ts@[i as int]);
                if is_url(ts@[i as int]) {
                    assert(urls.deep_view() =~= urls_pre + seq![inner_str(ts@[i as int])]);
                    assert(paths.deep_view() =~= paths_pre);
                } else {
                    assert(paths.deep_view() =~= paths_pre + seq![inner_str(ts@[i as int])]);
                    assert(urls.deep_view() =~= urls_pre);
                }
            }
            i += 1;
        }
        proof {
            assert(ts@.take(ts@.len() as int) =~= ts@);
        }
        let tags_field: Option<String> = match &tags {
            Some(v) => {
                if v.len() > 0 {
                    Some(join_with(v, ","))
                } else {
                    None
                }
            },
            None => None,
        };
        Ok(
            TorrentAddDescriptor {
                urls,
                paths,
                savepath,
                cookie,
                category,
                tags: tags_field,
                skip_checking,
                paused,
                root_folder,
                rename,
                up_limit,
                dl_limit,
                ratio_limit,
                seeding_time_limit,
                auto_tmm,
                sequential_download,
                first_last_piece_prio,
            },
        )
    }
}

impl TorrentAddDescriptor {
    /// A descriptor carrying exactly the given sources and no optional
    /// fields. The source list must not be empty.
    pub fn new(torrents: Vec<Torrent>) -> (r: TorrentAddDescriptor)
        requires
            torrents@.len() > 0,
        ensures
            r.urls.deep_view() == url_views(torrents@),
            r.paths.deep_view() == path_views(torrents@),
            r.tags is None,
            r.savepath is None,
            r.cookie is None,
            r.category is None,
            r.skip_checking is None,
            r.paused is None,
            r.root_folder is None,
            r.rename is None,
            r.up_limit is None,
            r.dl_limit is None,
            r.ratio_limit is None,
            r.seeding_time_limit is None,
            r.auto_tmm is None,
            r.sequential_download is None,
            r.first_last_piece_prio is None,
    {
        match TorrentAddDescriptor::builder().torrents(torrents).build() {
            Ok(d) => d,
            Err(_) => {
                proof {
                    assert(false);
                }
                vstd::pervasive::unreached()
            },
        }
    }

    /// A fresh builder.
    pub fn builder() -> (r: TorrentAddDescriptorBuilder)
        ensures
            r == empty_builder(),
    {
        TorrentAddDescriptorBuilder::new()
    }
}

impl TorrentAddDescriptorBuilder {
    pub fn torrents(self, torrents: Vec<Torrent>) -> (r: Self)
        ensures
            r == (Self { torrents: Some(torrents), ..self }),
    {
        Self { torrents: Some(torrents), ..self }
    }

    pub fn savepath(self, savepath: String) -> (r: Self)
        ensures
            r == (Self { savepath: Some(savepath), ..self }),
    {
        Self { savepath: Some(savepath), ..self }
    }

    pub fn cookie(self, cookie: String) -> (r: Self)
        ensures
            r == (Self { cookie: Some(cookie), ..self }),
    {
        Self { cookie: Some(cookie), ..self }
    }

    pub fn category(self, category: String) -> (r: Self)
        ensures
            r == (Self { category: Some(category), ..self }),
    {
        Self { category: Some(category), ..self }
    }

    pub fn tags(self, tags: Vec<String>) -> (r: Self)
        ensures
            r == (Self { tags: Some(tags), ..self }),
    {
        Self { tags: Some(tags), ..self }
    }

    pub fn skip_checking(self, skip_checking: bool) -> (r: Self)
        ensures
            r == (Self { skip_checking: Some(skip_checking), ..self }),
    {
        Self { skip_checking: Some(skip_checking), ..self }
    }

    pub fn paused(self, paused: bool) -> (r: Self)
        ensures
            r == (Self { paused: Some(paused), ..self }),
    {
        Self { paused: Some(paused), ..self }
    }

    pub fn root_folder(self, root_folder: String) -> (r: Self)
        ensures
            r == (Self { root_folder: Some(root_folder), ..self }),
    {
        Self { root_folder: Some(root_folder), ..self }
    }

    pub fn rename(self, rename: String) -> (r: Self)
        ensures
            r == (Self { rename: Some(rename), ..self }),
    {
        Self { rename: Some(rename), ..self }
    }

    pub fn up_limit(self, up_limit: u64) -> (r: Self)
        ensures
            r == (Self { up_limit: Some(up_limit), ..self }),
    {
        Self { up_limit: Some(up_limit), ..self }
    }

    pub fn dl_limit(self, dl_limit: u64) -> (r: Self)
        ensures
            r == (Self { dl_limit: Some(dl_limit), ..self }),
    {
        Self { dl_limit: Some(dl_limit), ..self }
    }

    /// The share ratio limit, given as the decimal text that goes on the
    /// wire.
    pub fn ratio_limit(self, ratio_limit: String) -> (r: Self)
        ensures
            r == (Self { ratio_limit: Some(ratio_limit), ..self }),
    {
        Self { ratio_limit: Some(ratio_limit), ..self }
    }

    pub fn seeding_time_limit(self, seeding_time_limit: u32) -> (r: Self)
        ensures
            r == (Self { seeding_time_limit: Some(seeding_time_limit), ..self }),
    {
        Self { seeding_time_limit: Some(seeding_time_limit), ..self }
    }

    pub fn auto_tmm(self, auto_tmm: bool) -> (r: Self)
        ensures
            r == (Self { auto_tmm: Some(auto_tmm), ..self }),
    {
        Self { auto_tmm: Some(auto_tmm), ..self }
    }

    pub fn sequential_download(self, sequential_download: bool) -> (r: Self)
        ensures
            r == (Self { sequential_download: Some(sequential_download), ..self }),
    {
        Self { sequential_download: Some(sequential_download), ..self }
    }

    pub fn first_last_piece_prio(self, first_last_piece_prio: bool) -> (r: Self)
        ensures
            r == (Self { first_last_piece_prio: Some(first_last_piece_prio), ..self }),
    {
        Self { first_last_piece_prio: Some(first_last_piece_prio), ..self }
    }
}

/// View of a list of (name, value) string pairs.
pub open spec fn pair_views(v: Seq<(String, String)>) -> Seq<(Seq<char>, Seq<char>)> {
    v.map_values(|p: (String, String)| (p.0@, p.1@))
}

/// The textual form of a boolean on the wire.
pub open spec fn bool_str(b: bool) -> Seq<char> {
    if b {
        "true"@
    } else {
        "false"@
    }
}

/// One optional text field: present with the string as it is, or absent.
pub open spec fn str_field(name: Seq<char>, v: Option<String>) -> Seq<(Seq<char>, Seq<char>)> {
    match v {
        Option::None => Seq::empty(),
        Option::Some(s) => seq![(name, s@)],
    }
}

/// One optional boolean field, rendered textually.
pub open spec fn bool_field(name: Seq<char>, v: Option<bool>) -> Seq<(Seq<char>, Seq<char>)> {
    match v {
        Option::None => Seq::empty(),
        Option::Some(b) => seq![(name, bool_str(b))],
    }
}

/// One optional numeric field, rendered in decimal.
pub open spec fn u64_field(name: Seq<char>, v: Option<u64>) -> Seq<(Seq<char>, Seq<char>)> {
    match v {
        Option::None => Seq::empty(),
        Option::Some(n) => seq![(name, dec_str(n as nat))],
    }
}

/// One optional numeric field, rendered in decimal.
pub open spec fn u32_field(name: Seq<char>, v: Option<u32>) -> Seq<(Seq<char>, Seq<char>)> {
    match v {
        Option::None => Seq::empty(),
        Option::Some(n) => seq![(name, dec_str(n as nat))],
    }
}

/// The optional text fields of a descriptor, in wire order, one per present
/// field and none for an absent one.
pub open spec fn optional_fields(d: TorrentAddDescriptor) -> Seq<(Seq<char>, Seq<char>)> {
    str_field("savepath"@, d.savepath) + str_field("cookie"@, d.cookie) + str_field(
        "category"@,
        d.category,
    ) + str_field("tags"@, d.tags) + bool_field("skip_checking"@, d.skip_checking) + bool_field(
        "paused"@,
        d.paused,
    ) + str_field("root_folder"@, d.root_folder) + str_field("rename"@, d.rename) + u64_field(
        "upLimit"@,
        d.up_limit,
    ) + u64_field("dlLimit"@, d.dl_limit) + str_field("ratioLimit"@, d.ratio_limit) + u32_field(
        "seedingTimeLimit"@,
        d.seeding_time_limit,
    ) + bool_field("autoTMM"@, d.auto_tmm) + bool_field(
        "sequentialDownload"@,
        d.sequential_download,
    ) + bool_field("firstLastPiecePrio"@, d.first_last_piece_prio)
}

/// The whole field list of a URL-kind submission: the `urls` field (the URL
/// list joined with no separator) followed by the present optional fields.
pub open spec fn url_form_fields(d: TorrentAddDescriptor) -> Seq<(Seq<char>, Seq<char>)> {
    seq![("urls"@, join_seqs(d.urls.deep_view(), ""@))] + optional_fields(d)
}

fn push_str_field(fields: &mut Vec<(String, String)>, name: &str, v: &Option<String>)
    ensures
        pair_views(final(fields)@) == pair_views(old(fields)@) + str_field(name@, *v),
{
    match v {
        Some(s) => {
            fields.push((name.to_owned(), s.clone()));
            proof {
                assert(pair_views(fields@) =~= pair_views(old(fields)@) + str_field(name@, *v));
            }
        },
        None => {
            proof {
                assert(pair_views(fields@) =~= pair_views(old(fields)@) + str_field(name@, *v));
            }
        },
    }
}

fn push_bool_field(fields: &mut Vec<(String, String)>, name: &str, v: &Option<bool>)
    ensures
        pair_views(final(fields)@) == pair_views(old(fields)@) + bool_field(name@, *v),
{
    match v {
        Some(b) => {
            let text: &str = if *b {
                "true"
            } else {
                "false"
            };
            fields.push((name.to_owned(), text.to_owned()));
            proof {
                assert(pair_views(fields@) =~= pair_views(old(fields)@) + bool_field(name@, *v));
            }
        },
        None => {
            proof {
                assert(pair_views(fields@) =~= pair_views(old(fields)@) + bool_field(name@, *v));
            }
        },
    }
}

fn push_u64_field(fields: &mut Vec<(String, String)>, name: &str, v: &Option<u64>)
    ensures
        pair_views(final(fields)@) == pair_views(old(fields)@) + u64_field(name@, *v),
{
    match v {
        Some(n) => {
            fields.push((name.to_owned(), u64_to_string(*n)));
            proof {
                assert(pair_views(fields@) =~= pair_views(old(fields)@) + u64_field(name@, *v));
            }
        },
        None => {
            proof {
                assert(pair_views(fields@) =~= pair_views(old(fields)@) + u64_field(name@, *v));
            }
        },
    }
}

fn push_u32_field(fields: &mut Vec<(String, String)>, name: &str, v: &Option<u32>)
    ensures
        pair_views(final(fields)@) == pair_views(old(fields)@) + u32_field(name@, *v),
{
    match v {
        Some(n) => {
            fields.push((name.to_owned(), u64_to_string(*n as u64)));
            proof {
                assert(pair_views(fields@) =~= pair_views(old(fields)@) + u32_field(name@, *v));
            }
        },
        None => {
            proof {
                assert(pair_views(fields@) =~= pair_views(old(fields)@) + u32_field(name@, *v));
            }
        },
    }
}

/// The optional text fields a descriptor puts on the wire, one (name, value)
/// pair per present field, in wire order; an absent field contributes
/// nothing.
pub fn optional_form_fields(d: &TorrentAddDescriptor) -> (r: Vec<(String, String)>)
    ensures
        pair_views(r@) == optional_fields(*d),
{
    let mut fields: Vec<(String, String)> = Vec::new();
    proof {
        assert(pair_views(fields@) =~= Seq::<(Seq<char>, Seq<char>)>::empty());
    }
    push_str_field(&mut fields, "savepath", &d.savepath);
    push_str_field(&mut fields, "cookie", &d.cookie);
    push_str_field(&mut fields, "category", &d.category);
    push_str_field(&mut fields, "tags", &d.tags);
    push_bool_field(&mut fields, "skip_checking", &d.skip_checking);
    push_bool_field(&mut fields, "paused", &d.paused);
    push_str_field(&mut fields, "root_folder", &d.root_folder);
    push_str_field(&mut fields, "rename", &d.rename);
    push_u64_field(&mut fields, "upLimit", &d.up_limit);
    push_u64_field(&mut fields, "dlLimit", &d.dl_limit);
    push_str_field(&mut fields, "ratioLimit", &d.ratio_limit);
    push_u32_field(&mut fields, "seedingTimeLimit", &d.seeding_time_limit);
    push_bool_field(&mut fields, "autoTMM", &d.auto_tmm);
    push_bool_field(&mut fields, "sequentialDownload", &d.sequential_download);
    push_bool_field(&mut fields, "firstLastPiecePrio", &d.first_last_piece_prio);
    proof {
        assert(pair_views(fields@) =~= optional_fields(*d));
    }
    fields
}

/// All file reads succeeded.
pub open spec fn all_reads_ok(reads: Seq<Option<Vec<u8>>>) -> bool {
    forall|i: int| 0 <= i < reads.len() ==> reads[i] is Some
}

/// The bytes of the (successful) file reads, in order.
pub open spec fn read_bytes(reads: Seq<Option<Vec<u8>>>) -> Seq<Seq<u8>> {
    Seq::new(
        reads.len(),
        |i: int|
            match reads[i] {
                Option::Some(b) => b.deep_view(),
                Option::None => Seq::empty(),
            },
    )
}

/// The one wire request a submission resolves to: a multipart upload of the
/// torrent files, a multipart form of the `urls` field and the optional
/// fields, or no request at all.
#[derive(Debug)]
pub enum SubmissionPlan {
    FileUpload(Vec<Vec<u8>>),
    UrlForm(Vec<(String, String)>),
    NoRequest,
}

/// Decides the wire encoding of one submission. `file_reads` holds the read
/// outcome for each entry of `descriptor.paths`, in the same order. With any
/// file path unreadable the whole submission fails before anything else
/// happens; with file paths present, only the file upload is planned and the
/// URL sources of the same descriptor are never put on the wire; with URL
/// sources alone, the URL form is planned; with no sources at all, no
/// request is owed.
pub fn plan_submission(descriptor: &TorrentAddDescriptor, file_reads: &Vec<Option<Vec<u8>>>) -> (r:
    Result<SubmissionPlan, Error>)
    requires
        file_reads@.len() == descriptor.paths@.len(),
    ensures
        descriptor.paths@.len() > 0 && !all_reads_ok(file_reads@) ==> r == Err::<
            SubmissionPlan,
            Error,
        >(Error::ApiError(ApiErrors::TorrentError(TorrentErrors::TorrentFilePathError))),
        descriptor.paths@.len() > 0 && all_reads_ok(file_reads@) ==> (r matches Ok(p) && (p matches
            SubmissionPlan::FileUpload(parts) && parts.deep_view() == read_bytes(file_reads@))),
        descriptor.paths@.len() == 0 && descriptor.urls@.len() > 0 ==> (r matches Ok(p)
            && (p matches SubmissionPlan::UrlForm(fields) && pair_views(fields@)
            == url_form_fields(*descriptor))),
        descriptor.paths@.len() == 0 && descriptor.urls@.len() == 0 ==> r == Ok::<
            SubmissionPlan,
            Error,
        >(SubmissionPlan::NoRequest),
{
    if descriptor.paths.len() > 0 {
        let mut parts: Vec<Vec<u8>> = Vec::new();
        let mut i: usize = 0;
        while i < file_reads.len()
            invariant
                i <= file_reads@.len(),
                file_reads@.len() == descriptor.paths@.len(),
                descriptor.paths@.len() > 0,
                forall|k: int| 0 <= k < i ==> file_reads@[k] is Some,
                parts.deep_view() == read_bytes(file_reads@.take(i as int)),
            decreases file_reads@.len() - i,
        {
            let ghost parts_pre = parts.deep_view();
            match &file_reads[i] {
                Some(bytes) => {
                    let copied = bytes.clone();
                    proof {
                        assert(copied@ =~= bytes@);
                        assert(copied.deep_view() =~= bytes.deep_view());
                    }
                    parts.push(copied);
                    proof {
                        let cur = file_reads@.take(i + 1);
                        assert(parts_pre.len() == i);
                        assert(parts.deep_view().len() == i + 1);
                        assert forall|k: int| 0 <= k < i + 1 implies parts.deep_view()[k]
                            == read_bytes(cur)[k] by {
                            assert(cur[k] == file_reads@[k]);
                            if k < i {
                                assert(parts.deep_view()[k] == parts_pre[k]);
                                assert(parts_pre[k] == read_bytes(file_reads@.take(i as int))[k]);
                                assert(file_reads@.take(i as int)[k] == file_reads@[k]);
                            } else {
                                assert(parts.deep_view()[k] == copied.deep_view());
                                assert(file_reads@[k] == Some(*bytes));
                            }
                        }
                        assert(parts.deep_view() =~= read_bytes(cur));
                    }
                },
                None => {
                    return Err(
                        Error::ApiError(
                            ApiErrors::TorrentError(TorrentErrors::TorrentFilePathError),
                        ),
                    );
                },
            }
            i += 1;
        }
        proof {
            assert(file_reads@.take(file_reads@.len() as int) =~= file_reads@);
        }
        Ok(SubmissionPlan::FileUpload(parts))
    } else if descriptor.urls.len() > 0 {
        let mut fields: Vec<(String, String)> = Vec::new();
        fields.push(("urls".to_owned(), join_with(&descriptor.urls, "")));
        proof {
            assert(pair_views(fields@) =~= seq![
                ("urls"@, join_seqs(descriptor.urls.deep_view(), ""@)),
            ]);
        }
        let mut optional = optional_form_fields(descriptor);
        let ghost fields_pre = fields@;
        let ghost optional_pre = optional@;
        fields.append(&mut optional);
        proof {
            assert(pair_views(fields@) =~= pair_views(fields_pre) + pair_views(optional_pre));
        }
        Ok(SubmissionPlan::UrlForm(fields))
    } else {
        Ok(SubmissionPlan::NoRequest)
    }
}

/// An error that submitting a descriptor can produce: a validation failure
/// found before any network work, a login failure from the token refresh, or
/// a transport failure.
pub open spec fn is_submit_error(e: Error) -> bool {
    ||| is_login_error(e)
    ||| e == Error::ApiError(ApiErrors::TorrentError(TorrentErrors::TorrentFilePathError))
}

/// The transport-error message for a submission answered with an unexpected
/// status: the branch's fixed text followed by the numeric status code.
pub open spec fn submit_misc_message(text: Seq<char>, status: u16) -> Seq<char> {
    text + " status code: "@ + dec_str(status as nat)
}

/// Classifies the torrents/add response: any 2xx status is success, and any
/// other status is a transport error carrying `failure_text` and the numeric
/// status code.
pub fn submit_outcome(status: u16, failure_text: &str) -> (r: Result<(), Error>)
    ensures
        200 <= status < 300 <==> r is Ok,
        200 <= status < 300 ==> r == Ok::<(), Error>(()),
        !(200 <= status < 300) ==> (r matches Err(e)
            && e matches Error::MiscError(MiscErrors::ReqwestError(m))
            && m@ == submit_misc_message(failure_text@, status)),
{
    if 200 <= status && status < 300 {
        Ok(())
    } else {
        let mut m = failure_text.to_owned();
        m.append(" status code: ");
        m.append(u64_to_string(status as u64).as_str());
        Err(Error::MiscError(MiscErrors::ReqwestError(m)))
    }
}

impl Api {
    /// Turns a descriptor into at most one wire request and performs it.
    /// `file_reads` holds the content read for each entry of
    /// `descriptor.paths`, in the same order, or nothing for a path whose
    /// file could not be read. Any unreadable file fails the whole call with
    /// `TorrentFilePathError` before any network work, leaving the handle
    /// untouched. With file paths present only the file upload is sent and
    /// the URL sources of the same descriptor never reach the wire; with
    /// URLs alone the URL form is sent; with no sources at all the call
    /// succeeds without sending anything. A response status outside 2xx is
    /// reported as a transport error carrying the numeric status code, as
    /// `submit_outcome` states.
    pub fn add_torrent(
        &mut self,
        descriptor: &TorrentAddDescriptor,
        file_reads: Vec<Option<Vec<u8>>>,
    ) -> (r: Result<(), Error>)
        requires
            file_reads@.len() == descriptor.paths@.len(),
        ensures
            final(self).authority == old(self).authority,
            final(self).credentials == old(self).credentials,
            final(self).reqwest_client == old(self).reqwest_client,
            descriptor.paths@.len() > 0 && !all_reads_ok(file_reads@) ==> r == Err::<(), Error>(
                Error::ApiError(ApiErrors::TorrentError(TorrentErrors::TorrentFilePathError)),
            ) && *final(self) == *old(self),
            r == Err::<(), Error>(
                Error::ApiError(ApiErrors::TorrentError(TorrentErrors::TorrentFilePathError)),
            ) ==> descriptor.paths@.len() > 0 && !all_reads_ok(file_reads@),
            descriptor.paths@.len() == 0 && descriptor.urls@.len() == 0 ==> r == Ok::<(), Error>(())
                && *final(self) == *old(self),
            r matches Err(e) ==> is_submit_error(e),
    {
        let plan = match plan_submission(descriptor, &file_reads) {
            Ok(p) => p,
            Err(e) => {
                return Err(e);
            },
        };
        match plan {
            SubmissionPlan::FileUpload(parts) => {
                let token = match self.get_cookie() {
                    Ok(t) => t,
                    Err(e) => {
                        return Err(e);
                    },
                };
                let mut form = form_new();
                let mut i: usize = 0;
                while i < parts.len()
                    invariant
                        i <= parts@.len(),
                        self.authority == old(self).authority,
                        self.credentials == old(self).credentials,
                        self.reqwest_client == old(self).reqwest_client,
                        descriptor.paths@.len() > 0,
                        all_reads_ok(file_reads@),
                        form_texts(form) == Seq::<(Seq<char>, Seq<char>)>::empty(),
                        form_files(form).len() == i,
                        forall|k: int|
                            0 <= k < i ==> form_files(form)[k] == ("torrents"@,
                            "torrent_file.torrent"@, ascii_lower("application/x-bittorrent"@),
                            parts.deep_view()[k]),
                    decreases parts@.len() - i,
                {
                    let copied = parts[i].clone();
                    proof {
                        assert(copied@ =~= parts@[i as int]@);
                        assert(parts@[i as int].deep_view() =~= parts@[i as int]@);
                    }
                    form = match form_file_part(
                        form,
                        "torrents",
                        "torrent_file.torrent",
                        "application/x-bittorrent",
                        copied,
                    ) {
                        Ok(f) => f,
                        Err(m) => {
                            return Err(Error::MiscError(MiscErrors::ReqwestError(m)));
                        },
                    };
                    i += 1;
                }
                match post_torrents_add(
                    &self.reqwest_client,
                    self.authority.as_str(),
                    token.as_str(),
                    form,
                ) {
                    Ok(status) => submit_outcome(
                        status,
                        "we dont really know what went wrong, but something with the adding of torrent files.",
                    ),
                    Err(m) => {
                        let mut msg = m;
                        msg.append(", aaaaa");
                        Err(Error::MiscError(MiscErrors::ReqwestError(msg)))
                    },
                }
            },
            SubmissionPlan::UrlForm(fields) => {
                let token = match self.get_cookie() {
                    Ok(t) => t,
                    Err(e) => {
                        return Err(e);
                    },
                };
                let mut form = form_new();
                let mut i: usize = 0;
                while i < fields.len()
                    invariant
                        i <= fields@.len(),
                        form_files(form) == Seq::<(Seq<char>, Seq<char>, Seq<char>, Seq<u8>)>::empty(),
                        form_texts(form) == pair_views(fields@.take(i as int)),
                    decreases fields@.len() - i,
                {
                    form = form_text(form, fields[i].0.as_str(), fields[i].1.as_str());
                    proof {
                        assert(form_texts(form) =~= pair_views(fields@.take(i + 1)));
                    }
                    i += 1;
                }
                match post_torrents_add(
                    &self.reqwest_client,
                    self.authority.as_str(),
                    token.as_str(),
                    form,
                ) {
                    Ok(status) => submit_outcome(
                        status,
                        "we dont really know what went wrong, but something with the adding of magnets.",
                    ),
                    Err(m) => {
                        let mut msg = m;
                        msg.append(", aaaaa, but magnets");
                        Err(Error::MiscError(MiscErrors::ReqwestError(msg)))
                    },
                }
            },
            SubmissionPlan::NoRequest => Ok(()),
        }
    }
}

} // verus!
