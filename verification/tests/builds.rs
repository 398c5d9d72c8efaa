use wvdsh::api_client::{ApiClient, ApiError, AuthError, BodyValue, Method};
use wvdsh::builds::{
    parse_target, temp_credentials_request, upload_completed_request, BuildPush, FilesystemError,
    InvalidTarget, PushAction, PushError, PushEvent, PushPhase, TemporaryCredentials,
};
use wvdsh::config::{ConfigError, ParseIssue, ValidationIssue, WavedashConfig};
use wvdsh::file_staging::{CopyStep, FileStaging, StageCandidate};
use wvdsh::uploader::{R2Uploader, SourceFile, TransferFault, TransferStage, UploadAction, UploadError};

const CUSTOM: &str = "org = \"acme\"\ngame = \"rocket\"\nenvironment = \"production\"\nupload_dir = \"./build\"\nversion = \"1.4.0\"\n[custom]\nversion = \"2.0\"\nentrypoint = \"play.html\"\n";

const GODOT: &str = "org = \"acme\"\ngame = \"rocket\"\nenvironment = \"sandbox\"\nupload_dir = \"out\"\n[godot]\nversion = \"4.3\"\n";

fn config(text: &str) -> WavedashConfig {
    WavedashConfig::load(Some(text)).unwrap()
}

fn credentials() -> TemporaryCredentials {
    TemporaryCredentials {
        game_build_id: "build_9".to_string(),
        uuid: "u-1".to_string(),
        bucket_name: "builds".to_string(),
        r2_key_prefix: "acme/rocket/u-1".to_string(),
        access_key_id: "id".to_string(),
        secret_access_key: "secret".to_string(),
        session_token: "session".to_string(),
        endpoint: "https://r2.example".to_string(),
        expires_in: 3600,
    }
}

fn candidate(source: &str, destination: &str, already_present: bool) -> StageCandidate {
    StageCandidate {
        source: source.to_string(),
        destination: destination.to_string(),
        already_present,
    }
}

fn staged_two() -> FileStaging {
    let mut staging = FileStaging::prepare(
        &candidate("wavedash.toml", "/abs/build/wavedash.toml", false),
        Some(&candidate("play.html", "/abs/build/play.html", false)),
    );
    staging.copy_done();
    staging.copy_done();
    staging
}

fn text(s: &str) -> BodyValue {
    BodyValue::Text(s.to_string())
}

/// Brings a push to the upload step, checking every action on the way.
fn push_at_upload(project: &str, staging: FileStaging) -> BuildPush {
    let mut push = BuildPush::new("./wavedash.toml", "https://api.wavedash.gg");
    assert_eq!(push.current_phase(), PushPhase::LoadConfig);
    assert_eq!(push.next_action(), PushAction::LoadConfig { path: "./wavedash.toml".to_string() });
    push.apply(PushEvent::ConfigLoaded(WavedashConfig::load(Some(project))));
    assert_eq!(push.next_action(), PushAction::ReadToken);
    push.apply(PushEvent::TokenRead(Some("tok".to_string())));
    assert!(matches!(push.next_action(), PushAction::ResolveUploadDir { .. }));
    push.apply(PushEvent::UploadDirResolved(Ok("/abs/build".to_string())));
    assert!(matches!(push.next_action(), PushAction::FetchCredentials(_)));
    push.apply(PushEvent::CredentialsFetched(Ok(credentials())));
    assert!(matches!(push.next_action(), PushAction::Stage { .. }));
    push.apply(PushEvent::Staged { staging, error: None });
    assert_eq!(push.current_phase(), PushPhase::Upload);
    push
}

#[test]
fn a_push_goes_through_every_step() {
    let mut push = BuildPush::new("proj/wavedash.toml", "https://api.wavedash.gg");
    assert_eq!(push.next_action(), PushAction::LoadConfig { path: "proj/wavedash.toml".to_string() });
    push.apply(PushEvent::ConfigLoaded(Ok(config(CUSTOM))));
    assert_eq!(push.next_action(), PushAction::ReadToken);
    push.apply(PushEvent::TokenRead(Some("tok".to_string())));
    assert_eq!(
        push.next_action(),
        PushAction::ResolveUploadDir {
            config_path: "proj/wavedash.toml".to_string(),
            upload_dir: "./build".to_string(),
        }
    );
    push.apply(PushEvent::UploadDirResolved(Ok("/abs/proj/build".to_string())));
    match push.next_action() {
        PushAction::FetchCredentials(request) => {
            assert_eq!(request.method, Method::Post);
            assert_eq!(
                request.url,
                "https://api.wavedash.gg/api/organizations/acme/games/rocket/environments/production/builds/create-temp-r2-creds"
            );
            assert_eq!(request.authorization, "Bearer tok");
            assert_eq!(
                request.body,
                Some(vec![
                    ("engine".to_string(), text("CUSTOM")),
                    ("engineVersion".to_string(), text("2.0")),
                    ("version".to_string(), text("1.4.0")),
                    ("entrypoint".to_string(), text("play.html")),
                ])
            );
        }
        other => panic!("unexpected action {other:?}"),
    }
    push.apply(PushEvent::CredentialsFetched(Ok(credentials())));
    assert_eq!(
        push.next_action(),
        PushAction::Stage {
            config_path: "proj/wavedash.toml".to_string(),
            upload_dir: "/abs/proj/build".to_string(),
            entrypoint: Some("play.html".to_string()),
        }
    );
    push.apply(PushEvent::Staged { staging: staged_two(), error: None });
    match push.next_action() {
        PushAction::Upload(job) => {
            assert_eq!(job.upload_dir, "/abs/proj/build");
            assert_eq!(job.bucket, "builds");
            assert_eq!(job.prefix, "acme/rocket/u-1");
            assert_eq!(job.credentials.access_key_id, "id");
            assert_eq!(job.credentials.secret_access_key, "secret");
            assert_eq!(job.credentials.session_token, "session");
            assert_eq!(job.credentials.endpoint, "https://r2.example");
        }
        other => panic!("unexpected action {other:?}"),
    }
    push.apply(PushEvent::Uploaded(Ok(())));
    match push.next_action() {
        PushAction::NotifyComplete(request) => {
            assert_eq!(request.method, Method::Post);
            assert_eq!(
                request.url,
                "https://api.wavedash.gg/api/organizations/acme/games/rocket/environments/production/builds/build_9/upload-completed"
            );
            assert_eq!(request.authorization, "Bearer tok");
            assert_eq!(request.body, None);
        }
        other => panic!("unexpected action {other:?}"),
    }
    push.apply(PushEvent::Notified(Ok(())));
    assert_eq!(
        push.next_action(),
        PushAction::Cleanup {
            files: vec!["/abs/build/wavedash.toml".to_string(), "/abs/build/play.html".to_string()],
        }
    );
    push.apply(PushEvent::CleanedUp);
    assert_eq!(push.current_phase(), PushPhase::Done);
    assert_eq!(push.next_action(), PushAction::Finish(Ok(())));
}

#[test]
fn a_failed_transfer_fails_the_push_without_notification() {
    let mut push = push_at_upload(GODOT, staged_two());
    let files: Vec<SourceFile> = (0..10)
        .map(|i| SourceFile {
            path: format!("/abs/build/f{i}"),
            relative: vec![format!("f{i}")],
            size: 10,
        })
        .collect();
    let job = match push.next_action() {
        PushAction::Upload(job) => job,
        other => panic!("unexpected action {other:?}"),
    };
    let uploader = R2Uploader::new(&job.credentials, &job.bucket);
    let mut session = uploader.upload_directory(&files, &job.prefix).unwrap();
    let mut running = Vec::new();
    let result = loop {
        match session.next_action() {
            UploadAction::Launch(index) => running.push(index),
            UploadAction::Wait => {
                let index = running.remove(0);
                let outcome = if index == 4 {
                    Err(TransferFault { stage: TransferStage::Write, detail: "boom".to_string() })
                } else {
                    Ok(())
                };
                session.transfer_finished(index, outcome);
            }
            UploadAction::Finish(result) => break result,
        }
    };
    let error = result.unwrap_err();
    assert!(matches!(&error, UploadError::Transfer { object_key, .. } if object_key == "acme/rocket/u-1/f4"));
    push.apply(PushEvent::Uploaded(Err(error.duplicate())));
    let mut actions = Vec::new();
    actions.push(push.next_action());
    push.apply(PushEvent::Notified(Ok(())));
    push.apply(PushEvent::Uploaded(Ok(())));
    actions.push(push.next_action());
    push.apply(PushEvent::CleanedUp);
    actions.push(push.next_action());
    push.apply(PushEvent::Uploaded(Ok(())));
    push.apply(PushEvent::Notified(Ok(())));
    actions.push(push.next_action());
    assert!(actions.iter().all(|a| !matches!(a, PushAction::NotifyComplete(_))));
    assert!(matches!(actions[0], PushAction::Cleanup { .. }));
    assert!(matches!(actions[1], PushAction::Cleanup { .. }));
    assert_eq!(actions[2], PushAction::Finish(Err(PushError::Upload(error.duplicate()))));
    assert_eq!(actions[3], PushAction::Finish(Err(PushError::Upload(error))));
}

#[test]
fn an_empty_directory_fails_the_push() {
    let mut push = push_at_upload(GODOT, FileStaging::empty());
    let uploader = R2Uploader::new(&credentials().r2_config(), "builds");
    let error = uploader.upload_directory(&Vec::new(), "p").unwrap_err();
    assert_eq!(error, UploadError::EmptyManifest);
    push.apply(PushEvent::Uploaded(Err(error)));
    assert_eq!(push.next_action(), PushAction::Cleanup { files: Vec::new() });
    push.apply(PushEvent::CleanedUp);
    assert_eq!(push.next_action(), PushAction::Finish(Err(PushError::Upload(UploadError::EmptyManifest))));
}

#[test]
fn cleanup_removes_what_staging_added_even_after_a_failed_upload() {
    let mut staging = FileStaging::prepare(
        &candidate("wavedash.toml", "/abs/build/wavedash.toml", false),
        Some(&candidate("play.html", "/abs/build/play.html", true)),
    );
    assert_eq!(
        staging.next_copy(),
        Some(&CopyStep {
            source: "wavedash.toml".to_string(),
            destination: "/abs/build/wavedash.toml".to_string(),
        })
    );
    staging.copy_done();
    assert_eq!(staging.next_copy(), None);
    assert_eq!(staging.cleanup(), vec!["/abs/build/wavedash.toml".to_string()]);
    let mut push = push_at_upload(CUSTOM, staging);
    push.apply(PushEvent::Uploaded(Err(UploadError::EmptyManifest)));
    assert_eq!(
        push.next_action(),
        PushAction::Cleanup { files: vec!["/abs/build/wavedash.toml".to_string()] }
    );
}

#[test]
fn a_file_that_is_already_there_is_neither_replaced_nor_removed() {
    let staging = FileStaging::prepare(
        &candidate("wavedash.toml", "/abs/build/wavedash.toml", true),
        None,
    );
    assert_eq!(staging.next_copy(), None);
    assert!(staging.cleanup().is_empty());
    let mut push = push_at_upload(GODOT, staging);
    push.apply(PushEvent::Uploaded(Ok(())));
    push.apply(PushEvent::Notified(Ok(())));
    assert_eq!(push.next_action(), PushAction::Cleanup { files: Vec::new() });
    push.apply(PushEvent::CleanedUp);
    assert_eq!(push.next_action(), PushAction::Finish(Ok(())));
}

#[test]
fn a_failed_notification_still_cleans_up() {
    let mut push = push_at_upload(GODOT, staged_two());
    push.apply(PushEvent::Uploaded(Ok(())));
    push.apply(PushEvent::Notified(Err(ApiError::Rejected("gone".to_string()))));
    assert!(matches!(push.next_action(), PushAction::Cleanup { files } if files.len() == 2));
    push.apply(PushEvent::CleanedUp);
    assert_eq!(
        push.next_action(),
        PushAction::Finish(Err(PushError::Api(ApiError::Rejected("gone".to_string()))))
    );
}

#[test]
fn a_failed_staging_cleans_up_what_it_copied() {
    let mut push = BuildPush::new("w.toml", "h");
    push.apply(PushEvent::ConfigLoaded(Ok(config(CUSTOM))));
    push.apply(PushEvent::TokenRead(Some("t".to_string())));
    push.apply(PushEvent::UploadDirResolved(Ok("/abs/build".to_string())));
    push.apply(PushEvent::CredentialsFetched(Ok(credentials())));
    let mut staging = FileStaging::prepare(
        &candidate("w.toml", "/abs/build/wavedash.toml", false),
        Some(&candidate("play.html", "/abs/build/play.html", false)),
    );
    staging.copy_done();
    let error = FilesystemError::CopyFailed {
        destination: "/abs/build/play.html".to_string(),
        detail: "permission denied".to_string(),
    };
    push.apply(PushEvent::Staged { staging, error: Some(error.duplicate()) });
    assert_eq!(
        push.next_action(),
        PushAction::Cleanup { files: vec!["/abs/build/wavedash.toml".to_string()] }
    );
    push.apply(PushEvent::CleanedUp);
    assert_eq!(push.next_action(), PushAction::Finish(Err(PushError::Filesystem(error))));
}

#[test]
fn early_failures_end_the_push_at_once() {
    let mut push = BuildPush::new("w.toml", "h");
    push.apply(PushEvent::ConfigLoaded(Err(ConfigError::Parse(ParseIssue::Syntax))));
    assert_eq!(
        push.next_action(),
        PushAction::Finish(Err(PushError::Config(ConfigError::Parse(ParseIssue::Syntax))))
    );

    let mut push = BuildPush::new("w.toml", "h");
    let mut broken = config(GODOT);
    broken.godot = None;
    push.apply(PushEvent::ConfigLoaded(Ok(broken)));
    assert_eq!(
        push.next_action(),
        PushAction::Finish(Err(PushError::Config(ConfigError::Validation(ValidationIssue::NoEngine))))
    );

    let mut push = BuildPush::new("w.toml", "h");
    push.apply(PushEvent::ConfigLoaded(Ok(config(GODOT))));
    push.apply(PushEvent::TokenRead(None));
    let finish = push.next_action();
    assert_eq!(finish, PushAction::Finish(Err(PushError::Auth(AuthError::NotAuthenticated))));
    assert_eq!(
        PushError::Auth(AuthError::NotAuthenticated).message(),
        "Not authenticated. Run 'wvdsh auth login' first."
    );

    let mut push = BuildPush::new("w.toml", "h");
    push.apply(PushEvent::ConfigLoaded(Ok(config(GODOT))));
    push.apply(PushEvent::TokenRead(Some("t".to_string())));
    push.apply(PushEvent::UploadDirResolved(Err(FilesystemError::MissingUploadDir("out".to_string()))));
    match push.next_action() {
        PushAction::Finish(Err(error)) => {
            assert_eq!(error.message(), "Source directory does not exist: out")
        }
        other => panic!("unexpected action {other:?}"),
    }

    let mut push = BuildPush::new("w.toml", "h");
    push.apply(PushEvent::ConfigLoaded(Ok(config(GODOT))));
    push.apply(PushEvent::TokenRead(Some("t".to_string())));
    push.apply(PushEvent::UploadDirResolved(Ok("/abs".to_string())));
    push.apply(PushEvent::CredentialsFetched(Err(ApiError::Rejected("quota exceeded".to_string()))));
    match push.next_action() {
        PushAction::Finish(Err(error)) => assert_eq!(error.message(), "quota exceeded"),
        other => panic!("unexpected action {other:?}"),
    }
}

#[test]
fn events_out_of_turn_change_nothing() {
    let mut push = BuildPush::new("w.toml", "h");
    push.apply(PushEvent::Uploaded(Ok(())));
    push.apply(PushEvent::CleanedUp);
    push.apply(PushEvent::TokenRead(None));
    assert_eq!(push.current_phase(), PushPhase::LoadConfig);
    assert_eq!(push.next_action(), PushAction::LoadConfig { path: "w.toml".to_string() });
}

#[test]
fn filesystem_error_messages() {
    assert_eq!(
        FilesystemError::NotADirectory("out".to_string()).message(),
        "Source must be a directory: out"
    );
    assert_eq!(
        FilesystemError::CopyFailed { destination: "d".to_string(), detail: "e".to_string() }.message(),
        "Failed to copy to upload dir: d: e"
    );
    assert_eq!(FilesystemError::Other("x".to_string()).message(), "x");
}

#[test]
fn credential_requests_leave_out_what_is_missing() {
    let client = ApiClient::for_host("https://h", "k");
    let request = temp_credentials_request(&client, &config(GODOT)).unwrap();
    assert_eq!(
        request.url,
        "https://h/api/organizations/acme/games/rocket/environments/sandbox/builds/create-temp-r2-creds"
    );
    assert_eq!(
        request.body,
        Some(vec![("engine".to_string(), text("GODOT")), ("engineVersion".to_string(), text("4.3"))])
    );
    let mut broken = config(GODOT);
    broken.godot = None;
    assert_eq!(
        temp_credentials_request(&client, &broken),
        Err(ConfigError::Validation(ValidationIssue::NoEngine))
    );
    let done = upload_completed_request(&client, &config(GODOT), "b1");
    assert_eq!(
        done.url,
        "https://h/api/organizations/acme/games/rocket/environments/sandbox/builds/b1/upload-completed"
    );
}

#[test]
fn staging_skips_files_that_are_already_there() {
    let config_file = candidate("wavedash.toml", "/abs/build/wavedash.toml", true);
    let staging = FileStaging::prepare(&config_file, None);
    assert_eq!(staging.next_copy(), None);
    assert!(staging.cleanup().is_empty());
    let entry_there = candidate("play.html", "/abs/build/play.html", true);
    let other = candidate("wavedash.toml", "/abs/build/wavedash.toml", false);
    let mut staging = FileStaging::prepare(&other, Some(&entry_there));
    assert_eq!(staging.next_copy().map(|s| s.destination.as_str()), Some("/abs/build/wavedash.toml"));
    assert!(staging.cleanup().is_empty());
    staging.copy_done();
    staging.copy_done();
    assert_eq!(staging.cleanup(), vec!["/abs/build/wavedash.toml".to_string()]);
    let both_there = FileStaging::prepare(&config_file, Some(&entry_there));
    assert_eq!(both_there.next_copy(), None);
}

#[test]
fn targets_are_org_game_and_branch() {
    assert_eq!(
        parse_target("acme/rocket:main"),
        Ok(("acme".to_string(), "rocket".to_string(), "main".to_string()))
    );
    assert_eq!(parse_target("/:"), Ok(("".to_string(), "".to_string(), "".to_string())));
    for target in ["acme/rocket", "acme:main", "a/b/c:main", "a/b:c:d", "", "a/b:c/d:e"] {
        assert_eq!(parse_target(target), Err(InvalidTarget), "{target}");
    }
    assert_eq!(
        parse_target("a/b:c/d"),
        Ok(("a".to_string(), "b".to_string(), "c/d".to_string()))
    );
    assert_eq!(
        InvalidTarget.message(),
        "Invalid target format. Expected: org_slug/game_slug:branch_name"
    );
}
