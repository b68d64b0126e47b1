use rustdesk::download_job::{DownloadAction, DownloadEvent, DownloadJob, DownloadStage};
use rustdesk::downloader::{
    cancel, complete_existing_file, download_file, download_file_with_finish_handler,
    ensure_destination_is_free, ensure_downloaded_size_matches, ensure_success_status,
    get_download_data, is_false, register_download, remove, resolve_total_size, DownloadRequest,
    DownloadStart, Downloader, Downloads, ExistingFile, FoundFile,
};

fn entry(token: u64, path: Option<&str>) -> Downloader {
    Downloader {
        token,
        data: Vec::new(),
        path: path.map(|p| p.to_owned()),
        total_size: Some(8),
        signed_size: Some(8),
        auto_del_dur: None,
        has_finish_handler: false,
        downloaded_size: 0,
        error: None,
        finished: false,
        finalizing: false,
    }
}

const EIGHT_BYTES: FoundFile = FoundFile {
    is_file: true,
    len: 8,
};

#[test]
fn download_file_with_finish_handler_does_not_reuse_existing_downloader() {
    let mut downloads = Downloads::new();
    let id = "https://example.com/rustdesk-finish-handler-contract.exe";
    let token = downloads.next_downloader_token();
    let mut existing = entry(token, Some("/tmp/file"));
    existing.has_finish_handler = true;
    downloads.insert(id, existing);
    let (_, result) = download_file_with_finish_handler(
        &mut downloads,
        id.to_owned(),
        Some("/tmp/file".to_owned()),
        None,
        Some(8),
    );
    assert_eq!(
        result.unwrap_err(),
        format!("Existing downloader for {id} cannot be reused with a finish handler")
    );
    remove(&mut downloads, id);
}

#[test]
fn downloaded_size_must_match_content_length() {
    assert!(ensure_downloaded_size_matches(10, 10, "https://example.com/file").is_ok());
    assert!(ensure_downloaded_size_matches(9, 10, "https://example.com/file").is_err());
    assert_eq!(
        ensure_downloaded_size_matches(11, 10, "https://example.com/file").unwrap_err(),
        "Downloaded size mismatch for https://example.com/file: expected 10, got 11"
    );
}

#[test]
fn unsigned_disk_download_allows_unknown_content_length() {
    let path = Some("/tmp/file".to_owned());
    assert_eq!(
        resolve_total_size(None, Some(8), &path, "https://example.com/file").unwrap(),
        Some(8)
    );
    assert_eq!(
        resolve_total_size(Some(8), None, &path, "https://example.com/file").unwrap(),
        Some(8)
    );
    assert_eq!(
        resolve_total_size(None, None, &path, "https://example.com/file").unwrap(),
        None
    );
    assert!(resolve_total_size(None, None, &None, "https://example.com/file").is_err());
}

#[test]
fn completed_existing_file_is_reported_as_finished() {
    let mut downloads = Downloads::new();
    let id = "https://example.com/rustdesk.exe";
    let result = complete_existing_file(&mut downloads, id, "/tmp/file", EIGHT_BYTES, 8, None);
    assert!(matches!(
        result,
        Ok(ExistingFile::Entered {
            stale_path: None,
            ..
        })
    ));
    let data = get_download_data(&downloads, id).unwrap();
    assert!(data.finished);
    assert_eq!(data.downloaded_size, 8);
    assert_eq!(data.total_size, Some(8));
    assert_eq!(data.path, Some("/tmp/file".to_owned()));
    assert!(matches!(
        complete_existing_file(&mut downloads, id, "/tmp/file", EIGHT_BYTES, 8, None),
        Ok(ExistingFile::Known)
    ));
    remove(&mut downloads, id);
}

#[test]
fn cancel_keeps_finished_existing_file_visible_without_deleting_it() {
    let mut downloads = Downloads::new();
    let id = "https://example.com/rustdesk-cancel-finished.exe";
    complete_existing_file(&mut downloads, id, "/tmp/file", EIGHT_BYTES, 8, None).unwrap();
    assert_eq!(cancel(&downloads, id), None);
    let data = get_download_data(&downloads, id).unwrap();
    assert!(data.finished);
    assert_eq!(data.path, Some("/tmp/file".to_owned()));
    remove(&mut downloads, id);
}

#[test]
fn stale_worker_state_updates_do_not_mutate_replaced_downloader() {
    let mut downloads = Downloads::new();
    let id = "https://example.com/rustdesk-stale-token.exe";
    let token = downloads.next_downloader_token();
    let stale_token = token.wrapping_add(1);
    let mut existing = entry(token, None);
    existing.has_finish_handler = true;
    downloads.insert(id, existing);

    assert!(!downloads.set_download_finalizing(id, stale_token));
    assert!(!downloads.finish_download(id, stale_token, Some("stale.exe".to_owned())));
    let failure = downloads.fail_download(id, stale_token, "stale error".to_owned());
    assert!(!failure.recorded);
    assert_eq!(failure.remove_file, None);

    let data = get_download_data(&downloads, id).unwrap();
    assert!(!data.finalizing);
    assert!(!data.finished);
    assert!(data.error.is_none());
    assert!(data.path.is_none());
    remove(&mut downloads, id);
}

#[test]
fn cancel_keeps_finalizing_downloader_visible() {
    let mut downloads = Downloads::new();
    let id = "https://example.com/rustdesk-cancel-finalizing.exe";
    let token = downloads.next_downloader_token();
    let mut existing = entry(token, None);
    existing.has_finish_handler = true;
    existing.downloaded_size = 8;
    existing.finalizing = true;
    downloads.insert(id, existing);
    assert_eq!(cancel(&downloads, id), None);
    let data = get_download_data(&downloads, id).unwrap();
    assert!(data.finalizing);
    assert!(!data.finished);
    remove(&mut downloads, id);
}

#[test]
fn download_file_rejects_existing_url_with_different_contract() {
    let mut downloads = Downloads::new();
    let id = "https://example.com/rustdesk-contract.exe";
    let token = downloads.next_downloader_token();
    downloads.insert(id, entry(token, Some("/tmp/old")));
    let (_, result) = download_file(
        &mut downloads,
        id.to_owned(),
        Some("/tmp/new".to_owned()),
        None,
        Some(8),
    );
    assert_eq!(
        result.unwrap_err(),
        format!("Existing downloader for {id} has different options")
    );
    remove(&mut downloads, id);
}

#[test]
fn downloads_to_the_same_place_are_shared() {
    let mut downloads = Downloads::new();
    let id = "https://example.com/rustdesk-place.exe";
    let token = downloads.next_downloader_token();
    downloads.insert(id, entry(token, Some("/tmp/old")));
    let path = Some("/tmp//./old".to_owned());
    let (_, result) = download_file(&mut downloads, id.to_owned(), path, None, Some(8));
    assert!(matches!(result, Ok(DownloadStart::Shared)));
}

#[test]
fn download_file_with_finish_handler_requires_path() {
    let mut downloads = Downloads::new();
    let id = "https://example.com/rustdesk-finish-handler-no-path.exe";
    let (_, result) =
        download_file_with_finish_handler(&mut downloads, id.to_owned(), None, None, Some(8));
    assert_eq!(
        result.unwrap_err(),
        "Download finish handler requires a file path"
    );
    assert_eq!(
        get_download_data(&downloads, id).unwrap_err(),
        "Downloader not found"
    );
}

#[test]
fn complete_existing_file_rejects_incomplete_existing_downloader() {
    let mut downloads = Downloads::new();
    let id = "https://example.com/rustdesk-incomplete.exe";
    let token = downloads.next_downloader_token();
    downloads.insert(id, entry(token, Some("/tmp/final")));
    let result = complete_existing_file(&mut downloads, id, "/tmp/final", EIGHT_BYTES, 8, None);
    assert_eq!(
        result.unwrap_err(),
        format!("Existing downloader for {id} is not complete")
    );
    remove(&mut downloads, id);
}

#[test]
fn complete_existing_file_rejects_symlink() {
    let mut downloads = Downloads::new();
    let link = FoundFile {
        is_file: false,
        len: 8,
    };
    let result = complete_existing_file(
        &mut downloads,
        "https://example.com/rustdesk-symlink.exe",
        "/tmp/link",
        link,
        8,
        None,
    );
    assert_eq!(
        result.unwrap_err(),
        "Download path is not a file: /tmp/link"
    );
}

#[test]
fn wrong_size_and_failed_attempts_of_existing_files() {
    let mut downloads = Downloads::new();
    let id = "u";
    assert_eq!(
        complete_existing_file(&mut downloads, id, "/f", EIGHT_BYTES, 9, None).unwrap_err(),
        "Downloaded size mismatch for u: expected 9, got 8"
    );
    let token = downloads.next_downloader_token();
    let mut failed = entry(token, Some("/partial"));
    failed.error = Some("broken".to_owned());
    downloads.insert(id, failed);
    match complete_existing_file(&mut downloads, id, "/f", EIGHT_BYTES, 8, Some(5)).unwrap() {
        ExistingFile::Entered { token, stale_path } => {
            assert_eq!(stale_path, Some("/partial".to_owned()));
            downloads.remove_downloader_if_token_matches(id, token + 1);
            assert!(get_download_data(&downloads, id).is_ok());
            downloads.remove_downloader_if_token_matches(id, token);
            assert!(get_download_data(&downloads, id).is_err());
        }
        ExistingFile::Known => unreachable!(),
    }
}

#[test]
fn success_statuses() {
    assert!(ensure_success_status(200, "c").is_ok());
    assert!(ensure_success_status(299, "c").is_ok());
    assert_eq!(
        ensure_success_status(404, "Failed to start download").unwrap_err(),
        "Failed to start download: 404 Not Found"
    );
    assert_eq!(
        ensure_success_status(199, "c").unwrap_err(),
        "c: 199 <unknown status code>"
    );
    assert!(ensure_success_status(300, "c").is_err());
}

#[test]
fn destinations_are_not_overwritten() {
    assert!(ensure_destination_is_free(&None, true).is_ok());
    assert!(ensure_destination_is_free(&Some("/f".to_owned()), false).is_ok());
    assert_eq!(
        ensure_destination_is_free(&Some("/f".to_owned()), true).unwrap_err(),
        "File /f already exists"
    );
    assert!(is_false(&false));
    assert!(!is_false(&true));
}

fn start(downloads: &mut Downloads, request: &DownloadRequest) -> DownloadJob {
    let token = downloads.next_downloader_token();
    assert!(matches!(
        register_download(downloads, request, token),
        Ok(DownloadStart::Fresh { .. })
    ));
    let (job, action) = DownloadJob::new(request, token);
    assert!(matches!(action, DownloadAction::CreateClient));
    job
}

#[test]
fn in_memory_download_runs_to_its_end() {
    let mut downloads = Downloads::new();
    let (request, begun) = download_file(
        &mut downloads,
        "https://example.com/list".to_owned(),
        None,
        Some(1_000),
        None,
    );
    assert!(matches!(
        begun,
        Ok(DownloadStart::Fresh { stale_path: None })
    ));
    let mut job = start(&mut downloads, &request);
    assert!(matches!(
        job.advance(&mut downloads, &DownloadEvent::ClientReady),
        DownloadAction::SendHead
    ));
    let head = DownloadEvent::HeadReply {
        content_length: Some("5".to_owned()),
    };
    assert!(matches!(
        job.advance(&mut downloads, &head),
        DownloadAction::SendGet
    ));
    assert!(matches!(
        job.advance(&mut downloads, &DownloadEvent::Response { status: 200 }),
        DownloadAction::ReadChunk
    ));
    for part in ["hel", "lo"] {
        let chunk = DownloadEvent::Chunk {
            bytes: part.as_bytes().to_vec(),
        };
        assert!(matches!(
            job.advance(&mut downloads, &chunk),
            DownloadAction::ReadChunk
        ));
        let report = get_download_data(&downloads, &request.url).unwrap();
        assert!(report.data.is_empty() && !report.finished);
    }
    assert!(matches!(
        job.advance(&mut downloads, &DownloadEvent::StreamEnd),
        DownloadAction::CheckCancel
    ));
    let done = job.advance(
        &mut downloads,
        &DownloadEvent::CancelChecked { requested: false },
    );
    assert!(matches!(
        done,
        DownloadAction::Stop {
            remove_file: None,
            remove_entry_after: Some(1_000)
        }
    ));
    assert_eq!(job.stage, DownloadStage::Stopped);
    let report = get_download_data(&downloads, &request.url).unwrap();
    assert!(report.finished);
    assert_eq!(report.data, b"hello");
    assert_eq!(report.total_size, Some(5));
}

#[test]
fn file_download_with_too_much_data_fails_and_is_retried() {
    let mut downloads = Downloads::new();
    let request = DownloadRequest {
        url: "https://example.com/app".to_owned(),
        path: Some("/tmp/app".to_owned()),
        auto_del_dur: None,
        signed_size: Some(4),
        has_finish_handler: false,
    };
    let mut job = start(&mut downloads, &request);
    job.advance(&mut downloads, &DownloadEvent::ClientReady);
    job.advance(&mut downloads, &DownloadEvent::HeadFailed);
    assert!(matches!(
        job.advance(&mut downloads, &DownloadEvent::Response { status: 206 }),
        DownloadAction::OpenFile
    ));
    job.advance(&mut downloads, &DownloadEvent::FileReady);
    let chunk = DownloadEvent::Chunk {
        bytes: vec![1, 2, 3],
    };
    assert!(matches!(
        job.advance(&mut downloads, &chunk),
        DownloadAction::WriteChunk
    ));
    assert!(matches!(
        job.advance(&mut downloads, &DownloadEvent::FileReady),
        DownloadAction::ReadChunk
    ));
    assert_eq!(
        get_download_data(&downloads, &request.url)
            .unwrap()
            .downloaded_size,
        3
    );
    match job.advance(&mut downloads, &chunk) {
        DownloadAction::Stop {
            remove_file,
            remove_entry_after: None,
        } => assert_eq!(remove_file, Some("/tmp/app".to_owned())),
        other => panic!("{other:?}"),
    }
    let report = get_download_data(&downloads, &request.url).unwrap();
    assert_eq!(
        report.error.unwrap(),
        "Downloaded size mismatch for https://example.com/app: expected 4, got 6"
    );
    let (_, again) = download_file(
        &mut downloads,
        request.url.clone(),
        request.path.clone(),
        None,
        Some(4),
    );
    match again.unwrap() {
        DownloadStart::Fresh { stale_path } => {
            assert_eq!(stale_path, Some("/tmp/app".to_owned()))
        }
        DownloadStart::Shared => unreachable!(),
    }
    assert!(get_download_data(&downloads, &request.url).is_err());
}

#[test]
fn cancelled_and_stale_workers() {
    let mut downloads = Downloads::new();
    let request = DownloadRequest {
        url: "https://example.com/app".to_owned(),
        path: Some("/tmp/app".to_owned()),
        auto_del_dur: None,
        signed_size: None,
        has_finish_handler: true,
    };
    let mut job = start(&mut downloads, &request);
    assert_eq!(cancel(&downloads, &request.url), Some(job.token));
    job.advance(&mut downloads, &DownloadEvent::ClientReady);
    job.advance(&mut downloads, &DownloadEvent::HeadFailed);
    job.advance(&mut downloads, &DownloadEvent::Response { status: 200 });
    job.advance(&mut downloads, &DownloadEvent::FileReady);
    assert!(matches!(
        job.advance(&mut downloads, &DownloadEvent::CancelSignal),
        DownloadAction::FlushFile
    ));
    assert!(matches!(
        job.advance(&mut downloads, &DownloadEvent::FileReady),
        DownloadAction::Stop {
            remove_file: Some(_),
            ..
        }
    ));
    assert!(get_download_data(&downloads, &request.url).is_err());

    let mut stale = start(&mut downloads, &request);
    assert_eq!(remove(&mut downloads, &request.url), Some(stale.token));
    let mut fresh = start(&mut downloads, &request);
    stale.advance(&mut downloads, &DownloadEvent::CancelSignal);
    assert_eq!(cancel(&downloads, &request.url), Some(fresh.token));
    for event in [
        DownloadEvent::ClientReady,
        DownloadEvent::HeadFailed,
        DownloadEvent::Response { status: 200 },
        DownloadEvent::FileReady,
        DownloadEvent::StreamEnd,
        DownloadEvent::FileReady,
    ] {
        fresh.advance(&mut downloads, &event);
    }
    assert!(matches!(
        fresh.advance(
            &mut downloads,
            &DownloadEvent::CancelChecked { requested: false }
        ),
        DownloadAction::RunHandler
    ));
    assert!(
        get_download_data(&downloads, &request.url)
            .unwrap()
            .finalizing
    );
    fresh.advance(
        &mut downloads,
        &DownloadEvent::HandlerDone {
            path: "/tmp/final".to_owned(),
        },
    );
    let report = get_download_data(&downloads, &request.url).unwrap();
    assert!(report.finished && !report.finalizing);
    assert_eq!(report.path, Some("/tmp/final".to_owned()));
}

#[test]
fn errors_of_the_network_end_a_download() {
    for (event, text) in [
        (DownloadEvent::RequestTimeout, "Timed out while starting download"),
        (
            DownloadEvent::RequestFailed {
                error: "no route".to_owned(),
            },
            "no route",
        ),
        (
            DownloadEvent::Response { status: 503 },
            "Failed to start download: 503 Service Unavailable",
        ),
    ] {
        let mut downloads = Downloads::new();
        let request = DownloadRequest {
            url: "u".to_owned(),
            path: None,
            auto_del_dur: None,
            signed_size: Some(1),
            has_finish_handler: false,
        };
        let mut job = start(&mut downloads, &request);
        job.advance(&mut downloads, &DownloadEvent::ClientReady);
        job.advance(&mut downloads, &DownloadEvent::HeadFailed);
        job.advance(&mut downloads, &event);
        let report = get_download_data(&downloads, "u").unwrap();
        assert_eq!(report.error.unwrap(), text);
    }
    let mut downloads = Downloads::new();
    let request = DownloadRequest {
        url: "u".to_owned(),
        path: None,
        auto_del_dur: None,
        signed_size: None,
        has_finish_handler: false,
    };
    let mut refused = start(&mut downloads, &request);
    let refusal = DownloadEvent::RequestFailed {
        error: "Strict HTTP client requires HTTPS: u".to_owned(),
    };
    assert!(matches!(
        refused.advance(&mut downloads, &refusal),
        DownloadAction::Stop { .. }
    ));
    assert_eq!(
        get_download_data(&downloads, "u").unwrap().error.unwrap(),
        "Strict HTTP client requires HTTPS: u"
    );

    let mut downloads = Downloads::new();
    let mut job = start(&mut downloads, &request);
    job.advance(&mut downloads, &DownloadEvent::ClientReady);
    let head = DownloadEvent::HeadReply {
        content_length: Some("many".to_owned()),
    };
    job.advance(&mut downloads, &head);
    assert_eq!(
        get_download_data(&downloads, "u").unwrap().error.unwrap(),
        "Refusing in-memory download without a known size for u"
    );
}
