use qbittorrent_api::add_torrent::{
    plan_submission, SubmissionPlan, TorrentAddDescriptor, TorrentAddDescriptorBuilder,
};
use qbittorrent_api::errors::{ApiErrors, Error, TorrentErrors};
use qbittorrent_api::torrents::{Torrent, TorrentType};

#[test]
fn prob_the_only_time_ive_ever_prayed() {
    let x = TorrentAddDescriptor::builder()
        .torrents(vec![
            Torrent::new("aaaaaa", TorrentType::Url),
            Torrent::new("/home/arch/hiiiii", TorrentType::TorrentFile),
        ])
        .savepath("/downloads".to_string())
        .cookie("my_cookie_value".to_string())
        .category("Movies".to_string())
        .tags(vec!["action".to_string(), "comedy".to_string()])
        .skip_checking(true)
        .paused(false)
        .root_folder("root_folder".to_string())
        .rename("my_torrent".to_string())
        .up_limit(1024)
        .dl_limit(2048)
        .ratio_limit("2.5".to_string())
        .seeding_time_limit(120)
        .auto_tmm(true)
        .sequential_download(true)
        .first_last_piece_prio(false)
        .build()
        .unwrap();

    println!("{:?}a", x)
}

#[test]
fn build_with_no_sources_fails() {
    let r = TorrentAddDescriptorBuilder::new().build();
    assert_eq!(
        r.unwrap_err(),
        Error::ApiError(ApiErrors::TorrentError(TorrentErrors::TorrentsNotSet))
    );
}

#[test]
fn build_with_empty_source_list_fails() {
    let r = TorrentAddDescriptorBuilder::new().torrents(vec![]).build();
    assert_eq!(
        r.unwrap_err(),
        Error::ApiError(ApiErrors::TorrentError(TorrentErrors::TorrentsNotSet))
    );
}

#[test]
fn partition_preserves_relative_order() {
    let d = TorrentAddDescriptorBuilder::new()
        .torrents(vec![
            Torrent::new("u1", TorrentType::Url),
            Torrent::new("p1", TorrentType::TorrentFile),
            Torrent::new("u2", TorrentType::Url),
            Torrent::new("p2", TorrentType::TorrentFile),
            Torrent::new("u3", TorrentType::Url),
        ])
        .build()
        .unwrap();
    assert_eq!(d.urls, vec!["u1".to_string(), "u2".to_string(), "u3".to_string()]);
    assert_eq!(d.paths, vec!["p1".to_string(), "p2".to_string()]);
}

#[test]
fn tags_join_two_entries() {
    let d = TorrentAddDescriptorBuilder::new()
        .torrents(vec![Torrent::new("u", TorrentType::Url)])
        .tags(vec!["action".to_string(), "comedy".to_string()])
        .build()
        .unwrap();
    assert_eq!(d.tags, Some("action,comedy".to_string()));
}

#[test]
fn absent_or_empty_tags_produce_no_field() {
    let absent = TorrentAddDescriptorBuilder::new()
        .torrents(vec![Torrent::new("u", TorrentType::Url)])
        .build()
        .unwrap();
    assert_eq!(absent.tags, None);

    let empty = TorrentAddDescriptorBuilder::new()
        .torrents(vec![Torrent::new("u", TorrentType::Url)])
        .tags(vec![])
        .build()
        .unwrap();
    assert_eq!(empty.tags, None);

    let plan = plan_submission(&empty, &Vec::new()).unwrap();
    match plan {
        SubmissionPlan::UrlForm(fields) => {
            assert!(fields.iter().all(|(name, _)| name != "tags"));
        }
        _ => panic!("expected a URL form"),
    }
}

#[test]
fn builder_keeps_earlier_fields() {
    let d = TorrentAddDescriptorBuilder::new()
        .savepath("/downloads".to_string())
        .torrents(vec![Torrent::new("u", TorrentType::Url)])
        .paused(true)
        .build()
        .unwrap();
    assert_eq!(d.savepath, Some("/downloads".to_string()));
    assert_eq!(d.paused, Some(true));
    assert_eq!(d.category, None);
}

#[test]
fn descriptor_new_sets_no_optionals() {
    let d = TorrentAddDescriptor::new(vec![
        Torrent::new("magnet:?xt=9", TorrentType::Url),
        Torrent::new("/tmp/a.torrent", TorrentType::TorrentFile),
    ]);
    assert_eq!(d.urls, vec!["magnet:?xt=9".to_string()]);
    assert_eq!(d.paths, vec!["/tmp/a.torrent".to_string()]);
    assert_eq!(d.tags, None);
    assert_eq!(d.savepath, None);
    assert_eq!(d.up_limit, None);
}

#[test]
fn url_submission_form_fields() {
    let d = TorrentAddDescriptorBuilder::new()
        .torrents(vec![Torrent::new("magnet:?xt=1", TorrentType::Url)])
        .tags(vec!["a".to_string(), "b".to_string()])
        .build()
        .unwrap();
    let plan = plan_submission(&d, &Vec::new()).unwrap();
    match plan {
        SubmissionPlan::UrlForm(fields) => {
            assert_eq!(
                fields,
                vec![
                    ("urls".to_string(), "magnet:?xt=1".to_string()),
                    ("tags".to_string(), "a,b".to_string()),
                ]
            );
        }
        _ => panic!("expected a URL form with no file parts"),
    }
}

#[test]
fn urls_field_joins_without_separator() {
    let d = TorrentAddDescriptorBuilder::new()
        .torrents(vec![
            Torrent::new("magnet:?xt=1", TorrentType::Url),
            Torrent::new("magnet:?xt=2", TorrentType::Url),
        ])
        .build()
        .unwrap();
    let plan = plan_submission(&d, &Vec::new()).unwrap();
    match plan {
        SubmissionPlan::UrlForm(fields) => {
            assert_eq!(fields[0], ("urls".to_string(), "magnet:?xt=1magnet:?xt=2".to_string()));
        }
        _ => panic!("expected a URL form"),
    }
}

#[test]
fn numeric_and_boolean_fields_render_textually() {
    let d = TorrentAddDescriptorBuilder::new()
        .torrents(vec![Torrent::new("u", TorrentType::Url)])
        .skip_checking(true)
        .paused(false)
        .up_limit(1024)
        .dl_limit(2048)
        .ratio_limit("2.5".to_string())
        .seeding_time_limit(120)
        .build()
        .unwrap();
    let plan = plan_submission(&d, &Vec::new()).unwrap();
    match plan {
        SubmissionPlan::UrlForm(fields) => {
            assert_eq!(
                fields,
                vec![
                    ("urls".to_string(), "u".to_string()),
                    ("skip_checking".to_string(), "true".to_string()),
                    ("paused".to_string(), "false".to_string()),
                    ("upLimit".to_string(), "1024".to_string()),
                    ("dlLimit".to_string(), "2048".to_string()),
                    ("ratioLimit".to_string(), "2.5".to_string()),
                    ("seedingTimeLimit".to_string(), "120".to_string()),
                ]
            );
        }
        _ => panic!("expected a URL form"),
    }
}

#[test]
fn all_optional_fields_in_wire_order() {
    let d = TorrentAddDescriptorBuilder::new()
        .torrents(vec![Torrent::new("aaaaaa", TorrentType::Url)])
        .savepath("/downloads".to_string())
        .cookie("my_cookie_value".to_string())
        .category("Movies".to_string())
        .tags(vec!["action".to_string(), "comedy".to_string()])
        .skip_checking(true)
        .paused(false)
        .root_folder("root_folder".to_string())
        .rename("my_torrent".to_string())
        .up_limit(1024)
        .dl_limit(2048)
        .ratio_limit("2.5".to_string())
        .seeding_time_limit(120)
        .auto_tmm(true)
        .sequential_download(true)
        .first_last_piece_prio(false)
        .build()
        .unwrap();
    let plan = plan_submission(&d, &Vec::new()).unwrap();
    match plan {
        SubmissionPlan::UrlForm(fields) => {
            let expected: Vec<(String, String)> = vec![
                ("urls".to_string(), "aaaaaa".to_string()),
                ("savepath".to_string(), "/downloads".to_string()),
                ("cookie".to_string(), "my_cookie_value".to_string()),
                ("category".to_string(), "Movies".to_string()),
                ("tags".to_string(), "action,comedy".to_string()),
                ("skip_checking".to_string(), "true".to_string()),
                ("paused".to_string(), "false".to_string()),
                ("root_folder".to_string(), "root_folder".to_string()),
                ("rename".to_string(), "my_torrent".to_string()),
                ("upLimit".to_string(), "1024".to_string()),
                ("dlLimit".to_string(), "2048".to_string()),
                ("ratioLimit".to_string(), "2.5".to_string()),
                ("seedingTimeLimit".to_string(), "120".to_string()),
                ("autoTMM".to_string(), "true".to_string()),
                ("sequentialDownload".to_string(), "true".to_string()),
                ("firstLastPiecePrio".to_string(), "false".to_string()),
            ];
            assert_eq!(fields, expected);
        }
        _ => panic!("expected a URL form"),
    }
}

#[test]
fn both_kinds_plan_only_the_file_upload() {
    let d = TorrentAddDescriptorBuilder::new()
        .torrents(vec![
            Torrent::new("/tmp/x.torrent", TorrentType::TorrentFile),
            Torrent::new("https://urlhere", TorrentType::Url),
        ])
        .build()
        .unwrap();
    let reads = vec![Some(vec![1u8, 2, 3])];
    let plan = plan_submission(&d, &reads).unwrap();
    match plan {
        SubmissionPlan::FileUpload(parts) => {
            assert_eq!(parts, vec![vec![1u8, 2, 3]]);
        }
        _ => panic!("URL sources must not be sent when file paths are present"),
    }
}

#[test]
fn unreadable_file_fails_the_plan() {
    let d = TorrentAddDescriptorBuilder::new()
        .torrents(vec![
            Torrent::new("/tmp/x.torrent", TorrentType::TorrentFile),
            Torrent::new("/tmp/y.torrent", TorrentType::TorrentFile),
        ])
        .build()
        .unwrap();
    let reads = vec![Some(vec![1u8]), None];
    let r = plan_submission(&d, &reads);
    assert_eq!(
        r.unwrap_err(),
        Error::ApiError(ApiErrors::TorrentError(TorrentErrors::TorrentFilePathError))
    );
}
