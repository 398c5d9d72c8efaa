use wvdsh::uploader::{
    build_manifest, build_object_key, byte_unit, transfer_step, upload_summary, ManifestEntry,
    R2Config, R2Uploader, SourceFile, TransferEvent, TransferFault, TransferStage, TransferStep,
    UploadAction, UploadError, DEFAULT_CONCURRENCY, WRITE_BUFFER_SIZE,
};

fn strings(parts: &[&str]) -> Vec<String> {
    parts.iter().map(|s| s.to_string()).collect()
}

fn file(relative: &[&str], size: u64) -> SourceFile {
    SourceFile { path: format!("/src/{}", relative.join("/")), relative: strings(relative), size }
}

fn credentials(session_token: &str) -> R2Config {
    R2Config {
        access_key_id: "id".to_string(),
        secret_access_key: "secret".to_string(),
        session_token: session_token.to_string(),
        endpoint: "https://r2.example".to_string(),
    }
}

fn ten_files() -> Vec<SourceFile> {
    (0..10u64).map(|i| file(&["assets", &format!("f{i}.bin")], 100 + i)).collect()
}

fn fault(stage: TransferStage, detail: &str) -> TransferFault {
    TransferFault { stage, detail: detail.to_string() }
}

#[test]
fn object_key_joins_prefix_and_path() {
    assert_eq!(build_object_key("builds/42", &strings(&["web", "index.html"])), "builds/42/web/index.html");
}

#[test]
fn object_key_trims_slashes_at_the_seam() {
    assert_eq!(build_object_key("builds/42//", &strings(&["index.html"])), "builds/42/index.html");
    assert_eq!(build_object_key("p", &strings(&["/a"])), "p/a");
    assert_eq!(build_object_key("/", &strings(&["a"])), "/a");
}

#[test]
fn object_key_without_prefix_is_the_relative_path() {
    assert_eq!(build_object_key("", &strings(&["a", "b", "c.bin"])), "a/b/c.bin");
    assert_eq!(build_object_key("", &strings(&[])), "");
    assert_eq!(build_object_key("p", &strings(&[])), "p/");
}

#[test]
fn manifest_has_one_entry_per_file_and_sums_sizes() {
    let files = vec![file(&["a.txt"], 3), file(&["d", "b.bin"], 1024), file(&["d", "e", "c"], 0)];
    let (entries, total) = build_manifest(&files, "p");
    assert_eq!(entries.len(), 3);
    assert_eq!(total, 1027);
    assert_eq!(
        entries[1],
        ManifestEntry {
            local_path: "/src/d/b.bin".to_string(),
            object_key: "p/d/b.bin".to_string(),
            size_bytes: 1024,
        }
    );
    assert_eq!(entries.iter().map(|e| e.size_bytes).sum::<u64>(), 1027);
    let mut keys: Vec<&str> = entries.iter().map(|e| e.object_key.as_str()).collect();
    keys.sort();
    keys.dedup();
    assert_eq!(keys, vec!["p/a.txt", "p/d/b.bin", "p/d/e/c"]);
}

#[test]
fn manifest_of_nothing_is_empty() {
    let (entries, total) = build_manifest(&Vec::new(), "p");
    assert!(entries.is_empty());
    assert_eq!(total, 0);
}

#[test]
fn manifest_total_saturates() {
    let files = vec![file(&["a"], u64::MAX - 1), file(&["b"], 5)];
    let (_, total) = build_manifest(&files, "");
    assert_eq!(total, u64::MAX);
}

#[test]
fn an_empty_directory_is_not_uploaded() {
    let uploader = R2Uploader::new(&credentials("t"), "bucket");
    assert_eq!(uploader.upload_directory(&Vec::new(), "p").err(), Some(UploadError::EmptyManifest));
    assert_eq!(UploadError::EmptyManifest.message(), "No files found in the upload directory");
}

#[test]
fn the_uploader_targets_the_bucket() {
    let uploader = R2Uploader::new(&credentials("tok"), "bucket");
    assert_eq!(uploader.concurrency(), DEFAULT_CONCURRENCY);
    assert_eq!(DEFAULT_CONCURRENCY, 10);
    let target = uploader.target();
    assert_eq!(target.bucket, "bucket");
    assert_eq!(target.region, "auto");
    assert_eq!(target.endpoint, "https://r2.example");
    assert_eq!(target.access_key_id, "id");
    assert_eq!(target.secret_access_key, "secret");
    assert_eq!(target.session_token.as_deref(), Some("tok"));
    let without = R2Uploader::new(&credentials(""), "bucket");
    assert_eq!(without.target().session_token, None);
}

#[test]
fn concurrency_can_be_set_but_not_to_zero() {
    let uploader = R2Uploader::new(&credentials(""), "b");
    assert_eq!(uploader.with_concurrency(3).concurrency(), 3);
    let uploader = R2Uploader::new(&credentials(""), "b");
    assert_eq!(uploader.with_concurrency(0).concurrency(), 10);
}

#[test]
fn never_more_than_three_in_flight() {
    let uploader = R2Uploader::new(&credentials(""), "b").with_concurrency(3);
    let mut session = uploader.upload_directory(&ten_files(), "p").unwrap();
    assert_eq!(session.len(), 10);
    assert_eq!(session.concurrency(), 3);
    let mut running: Vec<usize> = Vec::new();
    let mut launched: Vec<usize> = Vec::new();
    let mut most = 0;
    loop {
        match session.next_action() {
            UploadAction::Launch(index) => {
                running.push(index);
                launched.push(index);
            }
            UploadAction::Wait => {
                assert!(!running.is_empty());
                let index = running.remove(running.len() / 2);
                session.transfer_finished(index, Ok(()));
            }
            UploadAction::Finish(result) => {
                assert_eq!(result, Ok(()));
                break;
            }
        }
        assert_eq!(session.in_flight(), running.len());
        assert!(session.in_flight() <= 3);
        most = most.max(session.in_flight());
    }
    assert_eq!(most, 3);
    assert_eq!(launched, (0..10).collect::<Vec<_>>());
    assert!(running.is_empty());
    assert_eq!(session.progress_position(), session.total_bytes());
    assert_eq!(session.total_bytes(), (0..10u64).map(|i| 100 + i).sum::<u64>());
}

#[test]
fn progress_counts_whole_files_as_they_complete() {
    let uploader = R2Uploader::new(&credentials(""), "b").with_concurrency(2);
    let files = vec![file(&["a"], 10), file(&["b"], 20), file(&["c"], 30)];
    let mut session = uploader.upload_directory(&files, "").unwrap();
    assert_eq!(session.total_bytes(), 60);
    assert_eq!(session.progress_position(), 0);
    assert_eq!(session.next_action(), UploadAction::Launch(0));
    assert_eq!(session.next_action(), UploadAction::Launch(1));
    assert_eq!(session.next_action(), UploadAction::Wait);
    assert_eq!(session.progress_position(), 0);
    assert_eq!(session.transfer_finished(1, Ok(())), 20);
    assert_eq!(session.transfer_finished(1, Ok(())), 20);
    assert_eq!(session.transfer_finished(2, Ok(())), 20);
    assert_eq!(session.transfer_finished(7, Ok(())), 20);
    assert_eq!(session.in_flight(), 1);
    assert_eq!(session.next_action(), UploadAction::Launch(2));
    assert_eq!(session.transfer_finished(0, Ok(())), 30);
    assert_eq!(session.next_action(), UploadAction::Wait);
    assert_eq!(session.transfer_finished(2, Ok(())), 60);
    assert_eq!(session.next_action(), UploadAction::Finish(Ok(())));
    assert_eq!(session.next_action(), UploadAction::Finish(Ok(())));
    assert_eq!(session.entry(2).object_key, "c");
}

#[test]
fn progress_never_passes_a_saturated_total() {
    let uploader = R2Uploader::new(&credentials(""), "b");
    let files = vec![file(&["a"], u64::MAX), file(&["b"], u64::MAX)];
    let mut session = uploader.upload_directory(&files, "").unwrap();
    assert_eq!(session.total_bytes(), u64::MAX);
    session.next_action();
    session.next_action();
    assert_eq!(session.transfer_finished(0, Ok(())), u64::MAX);
    assert_eq!(session.transfer_finished(1, Ok(())), u64::MAX);
    assert_eq!(session.next_action(), UploadAction::Finish(Ok(())));
}

#[test]
fn the_first_failure_ends_the_upload() {
    let uploader = R2Uploader::new(&credentials(""), "b").with_concurrency(3);
    let mut session = uploader.upload_directory(&ten_files(), "p").unwrap();
    for index in 0..3 {
        assert_eq!(session.next_action(), UploadAction::Launch(index));
    }
    session.transfer_finished(0, Ok(()));
    session.transfer_finished(1, Err(fault(TransferStage::Write, "connection reset")));
    let expected = UploadError::Transfer {
        local_path: "/src/assets/f1.bin".to_string(),
        object_key: "p/assets/f1.bin".to_string(),
        stage: TransferStage::Write,
        detail: "connection reset".to_string(),
    };
    assert_eq!(session.next_action(), UploadAction::Finish(Err(expected.duplicate())));
    session.transfer_finished(2, Err(fault(TransferStage::Read, "later")));
    assert_eq!(session.next_action(), UploadAction::Finish(Err(expected.duplicate())));
    session.transfer_finished(2, Ok(()));
    assert_eq!(session.in_flight(), 0);
    assert_eq!(session.next_action(), UploadAction::Finish(Err(expected)));
    assert_eq!(session.progress_position(), 100);
}

#[test]
fn a_failed_finalize_is_its_own_error() {
    let uploader = R2Uploader::new(&credentials(""), "b");
    let mut session = uploader.upload_directory(&vec![file(&["a"], 1)], "p").unwrap();
    assert_eq!(session.next_action(), UploadAction::Launch(0));
    session.transfer_finished(0, Err(fault(TransferStage::Finalize, "timeout")));
    let expected = UploadError::Finalize { object_key: "p/a".to_string(), detail: "timeout".to_string() };
    assert_eq!(expected.message(), "Failed to finalize p/a: timeout");
    assert_eq!(session.next_action(), UploadAction::Finish(Err(expected)));
}

#[test]
fn upload_error_messages_name_the_file_or_the_object() {
    let error = |stage| UploadError::Transfer {
        local_path: "/src/a".to_string(),
        object_key: "p/a".to_string(),
        stage,
        detail: "why".to_string(),
    };
    assert_eq!(error(TransferStage::OpenFile).message(), "Failed to open /src/a: why");
    assert_eq!(error(TransferStage::CreateWriter).message(), "Failed to create writer for p/a: why");
    assert_eq!(error(TransferStage::Read).message(), "Failed to read /src/a: why");
    assert_eq!(error(TransferStage::Write).message(), "Failed to write p/a: why");
}

#[test]
fn a_transfer_reads_and_writes_until_the_file_ends() {
    assert_eq!(WRITE_BUFFER_SIZE, 8 * 1024 * 1024);
    assert_eq!(transfer_step(TransferEvent::Started), TransferStep::OpenFile);
    assert_eq!(transfer_step(TransferEvent::Opened), TransferStep::CreateWriter);
    assert_eq!(
        transfer_step(TransferEvent::WriterCreated),
        TransferStep::ReadChunk(WRITE_BUFFER_SIZE)
    );
    assert_eq!(transfer_step(TransferEvent::Read(512)), TransferStep::WriteChunk(512));
    assert_eq!(transfer_step(TransferEvent::Written), TransferStep::ReadChunk(WRITE_BUFFER_SIZE));
    assert_eq!(transfer_step(TransferEvent::Read(0)), TransferStep::Close);
    assert_eq!(transfer_step(TransferEvent::Closed), TransferStep::Done(Ok(())));
    let broken = fault(TransferStage::Read, "io");
    assert_eq!(
        transfer_step(TransferEvent::Failed(fault(TransferStage::Read, "io"))),
        TransferStep::Done(Err(broken))
    );
}

#[test]
fn sizes_are_shown_in_units_of_1024() {
    assert_eq!(byte_unit(0), (0, "B", 1));
    assert_eq!(byte_unit(1023), (0, "B", 1));
    assert_eq!(byte_unit(1024), (1, "KB", 1024));
    assert_eq!(byte_unit(1024 * 1024 - 1), (1, "KB", 1024));
    assert_eq!(byte_unit(1024 * 1024), (2, "MB", 1 << 20));
    assert_eq!(byte_unit(1 << 30), (3, "GB", 1 << 30));
    assert_eq!(byte_unit(1 << 40), (4, "TB", 1 << 40));
    assert_eq!(byte_unit(u64::MAX), (4, "TB", 1 << 40));
}

#[test]
fn the_summary_names_everything() {
    assert_eq!(
        upload_summary(12, "3.50 MB", "/src/build", "bucket", "builds/1"),
        "Uploading 12 files (3.50 MB total) from /src/build to bucket 'bucket' with prefix 'builds/1'"
    );
}
