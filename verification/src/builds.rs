//! Pushing a build: the steps, their order, and what happens when one of
//! them fails.
//!
//! A push loads the project file, reads the stored token, resolves the
//! upload directory, fetches temporary storage credentials, stages the
//! auxiliary files, uploads, tells the service that the upload is complete,
//! and cleans up what it staged. No step is tried twice. [`BuildPush`]
//! decides what comes next; the caller does it and reports back.

use vstd::prelude::*;
use crate::api_client::{
    body_view,
    ApiClient,
    ApiError,
    ApiRequest,
    AuthError,
    BodyValue,
    BodyView,
    Method,
};
use crate::config::{
    engine_of,
    engine_version_of,
    ConfigError,
    ConfigView,
    EngineKind,
    Environment,
    WavedashConfig,
};
use crate::file_staging::FileStaging;
use crate::text::{concat2, concat3, copy_of, split, split_on, texts};
use crate::uploader::{R2Config, UploadError};

verus! {

/// Short-lived storage credentials for one build, as the service issues
/// them.
#[derive(Debug, PartialEq, Eq)]
pub struct TemporaryCredentials {
    pub game_build_id: String,
    pub uuid: String,
    pub bucket_name: String,
    pub r2_key_prefix: String,
    pub access_key_id: String,
    pub secret_access_key: String,
    pub session_token: String,
    pub endpoint: String,
    /// Seconds for which the credentials are valid. Nothing here enforces
    /// it: an upload is expected to finish within that time.
    pub expires_in: u64,
}

/// What went wrong on the local filesystem.
#[derive(Debug, PartialEq, Eq)]
pub enum FilesystemError {
    /// The upload directory is not there.
    MissingUploadDir(String),
    /// What the upload directory names is not a directory.
    NotADirectory(String),
    /// A file could not be copied into the upload directory.
    CopyFailed { destination: String, detail: String },
    /// Anything else, with what the system said.
    Other(String),
}

/// Why a push failed.
#[derive(Debug, PartialEq, Eq)]
pub enum PushError {
    Config(ConfigError),
    Auth(AuthError),
    Filesystem(FilesystemError),
    Api(ApiError),
    Upload(UploadError),
}

/// The steps of a push, in order.
#[derive(Debug, Clone, Copy, PartialEq, Eq, Structural)]
pub enum PushPhase {
    LoadConfig,
    Authenticate,
    ResolvePaths,
    FetchCredentials,
    Stage,
    Upload,
    NotifyComplete,
    Cleanup,
    Done,
}

/// What the caller reports back after a step.
#[derive(Debug, PartialEq, Eq)]
pub enum PushEvent {
    ConfigLoaded(Result<WavedashConfig, ConfigError>),
    TokenRead(Option<String>),
    /// The absolute upload directory, which exists and is a directory.
    UploadDirResolved(Result<String, FilesystemError>),
    CredentialsFetched(Result<TemporaryCredentials, ApiError>),
    /// What staging copied, and what stopped it if something did.
    Staged { staging: FileStaging, error: Option<FilesystemError> },
    Uploaded(Result<(), UploadError>),
    Notified(Result<(), ApiError>),
    CleanedUp,
}

/// What to upload and where to.
#[derive(Debug, PartialEq, Eq)]
pub struct UploadJob {
    pub upload_dir: String,
    pub bucket: String,
    pub prefix: String,
    pub credentials: R2Config,
}

/// What the caller does next.
#[derive(Debug, PartialEq, Eq)]
pub enum PushAction {
    /// Read and load the project file.
    LoadConfig { path: String },
    /// Read the stored token.
    ReadToken,
    /// Resolve the upload directory against the project file's directory and
    /// make sure that it is a directory.
    ResolveUploadDir { config_path: String, upload_dir: String },
    /// Ask the service for temporary storage credentials.
    FetchCredentials(ApiRequest),
    /// Copy the project file, and the entry point if there is one, into the
    /// upload directory, each only where the directory does not hold one of
    /// that name already.
    Stage { config_path: String, upload_dir: String, entrypoint: Option<String> },
    /// Upload the directory.
    Upload(UploadJob),
    /// Tell the service that the upload is complete.
    NotifyComplete(ApiRequest),
    /// Remove these files from the upload directory.
    Cleanup { files: Vec<String> },
    /// The push is over.
    Finish(Result<(), PushError>),
}

/// A push as far as its course goes: the step it is at, whether a step has
/// failed, the files staging has added once staging has run, and whether
/// they have been cleaned up.
pub struct PushModel {
    pub phase: PushPhase,
    pub failed: bool,
    pub staged: Option<Seq<Seq<char>>>,
    pub cleaned: bool,
}

/// An event as far as the course of a push goes: which step it ends and
/// whether the step succeeded.
pub enum PushSignal {
    ConfigLoaded(bool),
    TokenRead(bool),
    UploadDirResolved(bool),
    CredentialsFetched(bool),
    Staged(Seq<Seq<char>>, bool),
    Uploaded(bool),
    Notified(bool),
    CleanedUp,
}

/// A push that has not started.
pub open spec fn initial_model() -> PushModel {
    PushModel { phase: PushPhase::LoadConfig, failed: false, staged: None, cleaned: false }
}

/// The push after a step before staging has ended.
pub open spec fn early_step(m: PushModel, ok: bool, next: PushPhase) -> PushModel {
    if ok {
        PushModel { phase: next, ..m }
    } else {
        PushModel { phase: PushPhase::Done, failed: true, ..m }
    }
}

/// The push after an event. An event that does not end the step the push is
/// at changes nothing.
///
/// Before staging a failed step ends the push. From staging on, the push
/// goes through cleanup whatever happens: a failed staging or upload goes
/// straight there, without the notification; the notification goes there
/// whether it succeeds or not.
pub open spec fn model_step(m: PushModel, signal: PushSignal) -> PushModel {
    match (m.phase, signal) {
        (PushPhase::LoadConfig, PushSignal::ConfigLoaded(ok)) => early_step(
            m,
            ok,
            PushPhase::Authenticate,
        ),
        (PushPhase::Authenticate, PushSignal::TokenRead(ok)) => early_step(
            m,
            ok,
            PushPhase::ResolvePaths,
        ),
        (PushPhase::ResolvePaths, PushSignal::UploadDirResolved(ok)) => early_step(
            m,
            ok,
            PushPhase::FetchCredentials,
        ),
        (PushPhase::FetchCredentials, PushSignal::CredentialsFetched(ok)) => early_step(
            m,
            ok,
            PushPhase::Stage,
        ),
        (PushPhase::Stage, PushSignal::Staged(files, ok)) => PushModel {
            phase: if ok {
                PushPhase::Upload
            } else {
                PushPhase::Cleanup
            },
            failed: !ok,
            staged: Some(files),
            cleaned: false,
        },
        (PushPhase::Upload, PushSignal::Uploaded(ok)) => PushModel {
            phase: if ok {
                PushPhase::NotifyComplete
            } else {
                PushPhase::Cleanup
            },
            failed: !ok,
            ..m
        },
        (PushPhase::NotifyComplete, PushSignal::Notified(ok)) => PushModel {
            phase: PushPhase::Cleanup,
            failed: !ok,
            ..m
        },
        (PushPhase::Cleanup, PushSignal::CleanedUp) => PushModel {
            phase: PushPhase::Done,
            cleaned: true,
            ..m
        },
        _ => m,
    }
}

/// The push after a sequence of events.
pub open spec fn model_run(m: PushModel, signals: Seq<PushSignal>) -> PushModel
    decreases signals.len(),
{
    if signals.len() == 0 {
        m
    } else {
        model_step(model_run(m, signals.drop_last()), signals.last())
    }
}

/// What holds at every point of every push: no step has failed while the
/// push is still before cleanup; the notification is only ever reached
/// without a failure; from the upload on staging has run; and a push that
/// staged anything is not over before cleanup has run.
pub open spec fn model_inv(m: PushModel) -> bool {
    &&& (m.phase is LoadConfig || m.phase is Authenticate || m.phase is ResolvePaths || m.phase
        is FetchCredentials || m.phase is Stage) ==> !m.failed && m.staged is None && !m.cleaned
    &&& (m.phase is Upload || m.phase is NotifyComplete) ==> !m.failed && m.staged is Some
        && !m.cleaned
    &&& m.phase is Cleanup ==> m.staged is Some && !m.cleaned
    &&& m.phase is Done ==> (m.staged is Some <==> m.cleaned)
    &&& m.phase is Done && m.staged is None ==> m.failed
}

/// One event keeps the invariant of a push.
pub proof fn lemma_step_keeps_inv(m: PushModel, signal: PushSignal)
    requires
        model_inv(m),
    ensures
        model_inv(model_step(m, signal)),
{
}

/// Any sequence of events keeps the invariant of a push.
pub proof fn lemma_run_keeps_inv(m: PushModel, signals: Seq<PushSignal>)
    requires
        model_inv(m),
    ensures
        model_inv(model_run(m, signals)),
    decreases signals.len(),
{
    if signals.len() > 0 {
        lemma_run_keeps_inv(m, signals.drop_last());
        lemma_step_keeps_inv(model_run(m, signals.drop_last()), signals.last());
    }
}

/// Whatever is reported to a push, in whatever order: it asks for the
/// completion notice only while nothing has failed; once it has staged it
/// is not over before cleanup has run; and it ends without a failure only
/// after cleanup.
pub proof fn law_course_of_a_push(signals: Seq<PushSignal>)
    ensures
        ({
            let end = model_run(initial_model(), signals);
            &&& end.phase is NotifyComplete ==> !end.failed
            &&& end.phase is Done && end.staged is Some ==> end.cleaned
            &&& end.phase is Done && !end.failed ==> end.cleaned
        }),
{
    lemma_run_keeps_inv(initial_model(), signals);
}

/// Once a step has failed from staging on, no later event brings the push
/// to the notification or takes the failure away.
pub open spec fn failed_for_good(m: PushModel) -> bool {
    m.failed && (m.phase is Cleanup || m.phase is Done)
}

/// A push that has failed for good stays so, with the same staged files.
pub proof fn lemma_failed_stays_failed(m: PushModel, signals: Seq<PushSignal>)
    requires
        failed_for_good(m),
    ensures
        failed_for_good(model_run(m, signals)),
        model_run(m, signals).staged == m.staged,
    decreases signals.len(),
{
    if signals.len() > 0 {
        lemma_failed_stays_failed(m, signals.drop_last());
    }
}

/// If the upload fails, the push goes to cleanup at once, and whatever is
/// reported afterwards, it never asks for the completion notice and it ends
/// as a failure.
pub proof fn law_failed_upload_never_notifies(m: PushModel, later: Seq<PushSignal>)
    requires
        m.phase is Upload,
    ensures
        model_step(m, PushSignal::Uploaded(false)).phase is Cleanup,
        ({
            let end = model_run(model_step(m, PushSignal::Uploaded(false)), later);
            &&& !(end.phase is NotifyComplete)
            &&& end.failed
            &&& end.staged == m.staged
        }),
{
    lemma_failed_stays_failed(model_step(m, PushSignal::Uploaded(false)), later);
}

/// The files that staging added stay on record until the push is over: no
/// event after staging changes them.
pub proof fn law_staged_files_stay_on_record(m: PushModel, later: Seq<PushSignal>)
    requires
        m.staged is Some,
        model_inv(m),
    ensures
        model_run(m, later).staged == m.staged,
    decreases later.len(),
{
    if later.len() > 0 {
        law_staged_files_stay_on_record(m, later.drop_last());
        lemma_run_keeps_inv(m, later.drop_last());
    }
}

/// From the upload on, the only way for a push to be over is through
/// cleanup: whether the upload fails or succeeds, and whether the
/// notification fails or succeeds.
pub proof fn law_cleanup_on_every_path(m: PushModel, signal: PushSignal)
    requires
        m.phase is Upload || m.phase is NotifyComplete || m.phase is Cleanup,
    ensures
        model_step(m, signal).phase is Done ==> m.phase is Cleanup && signal is CleanedUp
            && model_step(m, signal).cleaned,
        m.phase is Upload && signal is Uploaded ==> (model_step(m, signal).phase is Cleanup
            || model_step(m, signal).phase is NotifyComplete),
        m.phase is NotifyComplete && signal is Notified ==> model_step(m, signal).phase is Cleanup,
{
}

/// An event as far as the course of a push goes. A project file that loaded
/// but has no engine, or several, counts as a failed load.
pub open spec fn signal_of(event: PushEvent) -> PushSignal {
    match event {
        PushEvent::ConfigLoaded(r) => PushSignal::ConfigLoaded(
            r is Ok && engine_of(r->Ok_0@) is Ok,
        ),
        PushEvent::TokenRead(token) => PushSignal::TokenRead(token is Some),
        PushEvent::UploadDirResolved(r) => PushSignal::UploadDirResolved(r is Ok),
        PushEvent::CredentialsFetched(r) => PushSignal::CredentialsFetched(r is Ok),
        PushEvent::Staged { staging, error } => PushSignal::Staged(staging.added(), error is None),
        PushEvent::Uploaded(r) => PushSignal::Uploaded(r is Ok),
        PushEvent::Notified(r) => PushSignal::Notified(r is Ok),
        PushEvent::CleanedUp => PushSignal::CleanedUp,
    }
}

/// The failure that an event reports, if it reports one.
pub open spec fn failure_of(event: PushEvent) -> Option<PushError> {
    match event {
        PushEvent::ConfigLoaded(Err(e)) => Some(PushError::Config(e)),
        PushEvent::ConfigLoaded(Ok(config)) => match engine_of(config@) {
            Err(e) => Some(PushError::Config(e)),
            Ok(_) => None,
        },
        PushEvent::TokenRead(None) => Some(PushError::Auth(AuthError::NotAuthenticated)),
        PushEvent::TokenRead(Some(_)) => None,
        PushEvent::UploadDirResolved(Err(e)) => Some(PushError::Filesystem(e)),
        PushEvent::UploadDirResolved(Ok(_)) => None,
        PushEvent::CredentialsFetched(Err(e)) => Some(PushError::Api(e)),
        PushEvent::CredentialsFetched(Ok(_)) => None,
        PushEvent::Staged { staging, error: Some(e) } => Some(PushError::Filesystem(e)),
        PushEvent::Staged { staging, error: None } => None,
        PushEvent::Uploaded(Err(e)) => Some(PushError::Upload(e)),
        PushEvent::Uploaded(Ok(_)) => None,
        PushEvent::Notified(Err(e)) => Some(PushError::Api(e)),
        PushEvent::Notified(Ok(_)) => None,
        PushEvent::CleanedUp => None,
    }
}

/// Whether an event ends the step that a push is at.
pub open spec fn expects(phase: PushPhase, signal: PushSignal) -> bool {
    match (phase, signal) {
        (PushPhase::LoadConfig, PushSignal::ConfigLoaded(_)) => true,
        (PushPhase::Authenticate, PushSignal::TokenRead(_)) => true,
        (PushPhase::ResolvePaths, PushSignal::UploadDirResolved(_)) => true,
        (PushPhase::FetchCredentials, PushSignal::CredentialsFetched(_)) => true,
        (PushPhase::Stage, PushSignal::Staged(_, _)) => true,
        (PushPhase::Upload, PushSignal::Uploaded(_)) => true,
        (PushPhase::NotifyComplete, PushSignal::Notified(_)) => true,
        (PushPhase::Cleanup, PushSignal::CleanedUp) => true,
        _ => false,
    }
}

/// The path that temporary storage credentials are asked for at.
pub open spec fn credentials_path(c: ConfigView) -> Seq<char> {
    "/organizations/"@ + c.org + "/games/"@ + c.game + "/environments/"@ + c.environment.name()
        + "/builds/create-temp-r2-creds"@
}

/// The path that the completion of a build's upload is reported at.
pub open spec fn completed_path(c: ConfigView, build_id: Seq<char>) -> Seq<char> {
    "/organizations/"@ + c.org + "/games/"@ + c.game + "/environments/"@ + c.environment.name()
        + "/builds/"@ + build_id + "/upload-completed"@
}

/// What is sent to get temporary storage credentials: the engine and its
/// version, then the build's version if it has one, then the entry point if
/// the engine is a custom one.
pub open spec fn credentials_body(c: ConfigView) -> Seq<(Seq<char>, BodyView)> {
    seq![
        ("engine"@, BodyView::Text(engine_of(c)->Ok_0.label())),
        ("engineVersion"@, BodyView::Text(engine_version_of(c)->0)),
    ] + (match c.build_version {
        Some(v) => seq![("version"@, BodyView::Text(v))],
        None => Seq::empty(),
    }) + (match c.custom {
        Some((_, entrypoint)) => seq![("entrypoint"@, BodyView::Text(entrypoint))],
        None => Seq::empty(),
    })
}

fn organization_path(config: &WavedashConfig) -> (path: String)
    ensures
        path@ == "/organizations/"@ + config@.org + "/games/"@ + config@.game + "/environments/"@
            + config@.environment.name(),
{
    let mut path = concat3("/organizations/", config.org.as_str(), "/games/");
    path = concat3(path.as_str(), config.game.as_str(), "/environments/");
    concat2(path.as_str(), config.environment.as_str())
}

/// The request for temporary storage credentials for a build of the
/// configured game. A configuration without exactly one engine section has
/// no such request.
pub fn temp_credentials_request(client: &ApiClient, config: &WavedashConfig) -> (r: Result<
    ApiRequest,
    ConfigError,
>)
    ensures
        match engine_of(config@) {
            Ok(_) => r is Ok && client.makes(r->Ok_0, Method::Post, credentials_path(config@))
                && r->Ok_0.body is Some && body_view(r->Ok_0.body->0@) == credentials_body(config@),
            Err(e) => r == Err::<ApiRequest, ConfigError>(e),
        },
{
    let engine = match config.engine_type() {
        Ok(engine) => engine,
        Err(e) => {
            return Err(e);
        },
    };
    let version = match config.version() {
        Ok(version) => version,
        Err(e) => {
            return Err(e);
        },
    };
    let mut body: Vec<(String, BodyValue)> = Vec::new();
    body.push((copy_of("engine"), BodyValue::Text(copy_of(engine.as_label()))));
    body.push((copy_of("engineVersion"), BodyValue::Text(copy_of(version))));
    let ghost first = body_view(body@);
    assert(first =~= seq![
        ("engine"@, BodyView::Text(engine_of(config@)->Ok_0.label())),
        ("engineVersion"@, BodyView::Text(engine_version_of(config@)->0)),
    ]);
    match &config.build_version {
        Some(v) => {
            body.push((copy_of("version"), BodyValue::Text(v.clone())));
        },
        None => {},
    }
    let ghost second = body_view(body@);
    assert(second =~= first + (match config@.build_version {
        Some(v) => seq![("version"@, BodyView::Text(v))],
        None => Seq::empty(),
    }));
    match config.entrypoint() {
        Some(entrypoint) => {
            body.push((copy_of("entrypoint"), BodyValue::Text(copy_of(entrypoint))));
        },
        None => {},
    }
    assert(body_view(body@) =~= second + (match config@.custom {
        Some((_, entrypoint)) => seq![("entrypoint"@, BodyView::Text(entrypoint))],
        None => Seq::empty(),
    }));
    let path = concat2(organization_path(config).as_str(), "/builds/create-temp-r2-creds");
    Ok(client.post(path.as_str(), Some(body)))
}

/// The request that tells the service that a build's upload is complete.
pub fn upload_completed_request(client: &ApiClient, config: &WavedashConfig, build_id: &str) -> (request:
    ApiRequest)
    ensures
        client.makes(request, Method::Post, completed_path(config@, build_id@)),
        request.body is None,
{
    let mut path = concat3(organization_path(config).as_str(), "/builds/", build_id);
    path = concat2(path.as_str(), "/upload-completed");
    client.post(path.as_str(), None)
}

impl TemporaryCredentials {
    /// The storage credentials, as the uploader takes them.
    pub fn r2_config(&self) -> (config: R2Config)
        ensures
            config.access_key_id@ == self.access_key_id@,
            config.secret_access_key@ == self.secret_access_key@,
            config.session_token@ == self.session_token@,
            config.endpoint@ == self.endpoint@,
    {
        R2Config {
            access_key_id: self.access_key_id.clone(),
            secret_access_key: self.secret_access_key.clone(),
            session_token: self.session_token.clone(),
            endpoint: self.endpoint.clone(),
        }
    }
}

impl FilesystemError {
    /// A copy of the error.
    pub fn duplicate(&self) -> (copy: FilesystemError)
        ensures
            copy == *self,
    {
        match self {
            FilesystemError::MissingUploadDir(path) => FilesystemError::MissingUploadDir(
                path.clone(),
            ),
            FilesystemError::NotADirectory(path) => FilesystemError::NotADirectory(path.clone()),
            FilesystemError::CopyFailed { destination, detail } => FilesystemError::CopyFailed {
                destination: destination.clone(),
                detail: detail.clone(),
            },
            FilesystemError::Other(detail) => FilesystemError::Other(detail.clone()),
        }
    }

    /// The message shown for this error.
    pub fn message(&self) -> (text: String)
        ensures
            text@ == filesystem_error_text(*self),
    {
        match self {
            FilesystemError::MissingUploadDir(path) => concat2(
                "Source directory does not exist: ",
                path.as_str(),
            ),
            FilesystemError::NotADirectory(path) => concat2(
                "Source must be a directory: ",
                path.as_str(),
            ),
            FilesystemError::CopyFailed { destination, detail } => {
                let head = concat2("Failed to copy to upload dir: ", destination.as_str());
                concat3(head.as_str(), ": ", detail.as_str())
            },
            FilesystemError::Other(detail) => detail.clone(),
        }
    }
}

/// The message of a filesystem error.
pub open spec fn filesystem_error_text(e: FilesystemError) -> Seq<char> {
    match e {
        FilesystemError::MissingUploadDir(path) => "Source directory does not exist: "@ + path@,
        FilesystemError::NotADirectory(path) => "Source must be a directory: "@ + path@,
        FilesystemError::CopyFailed { destination, detail } => "Failed to copy to upload dir: "@
            + destination@ + ": "@ + detail@,
        FilesystemError::Other(detail) => detail@,
    }
}

/// The message of a failed push: that of the step that failed.
pub open spec fn push_error_text(e: PushError) -> Seq<char> {
    match e {
        PushError::Config(e) => crate::config::config_error_text(e),
        PushError::Auth(_) => "Not authenticated. Run 'wvdsh auth login' first."@,
        PushError::Filesystem(e) => filesystem_error_text(e),
        PushError::Api(e) => crate::api_client::api_error_text(e),
        PushError::Upload(e) => crate::uploader::upload_error_text(e),
    }
}

impl PushError {
    /// A copy of the error.
    pub fn duplicate(&self) -> (copy: PushError)
        ensures
            copy == *self,
    {
        match self {
            PushError::Config(e) => PushError::Config(*e),
            PushError::Auth(e) => PushError::Auth(*e),
            PushError::Filesystem(e) => PushError::Filesystem(e.duplicate()),
            PushError::Api(e) => PushError::Api(e.duplicate()),
            PushError::Upload(e) => PushError::Upload(e.duplicate()),
        }
    }

    /// The message shown for this error.
    pub fn message(&self) -> (text: String)
        ensures
            text@ == push_error_text(*self),
    {
        match self {
            PushError::Config(e) => e.message(),
            PushError::Auth(e) => e.message(),
            PushError::Filesystem(e) => e.message(),
            PushError::Api(e) => e.message(),
            PushError::Upload(e) => e.message(),
        }
    }
}

/// A target that is not `org/game:branch`.
#[derive(Debug, Clone, Copy, PartialEq, Eq, Structural)]
pub struct InvalidTarget;

/// The organisation, the game and the branch that a target names: a target
/// is `org/game:branch`, with exactly one colon and, before it, exactly one
/// slash.
pub open spec fn target_of(target: Seq<char>) -> Option<(Seq<char>, Seq<char>, Seq<char>)> {
    let parts = split_on(target, ':');
    if parts.len() != 2 {
        None
    } else {
        let names = split_on(parts[0], '/');
        if names.len() != 2 {
            None
        } else {
            Some((names[0], names[1], parts[1]))
        }
    }
}

/// The organisation, the game and the branch that a target names.
pub fn parse_target(target: &str) -> (r: Result<(String, String, String), InvalidTarget>)
    ensures
        r is Ok == target_of(target@) is Some,
        r matches Ok((org, game, branch)) ==> target_of(target@) == Some((org@, game@, branch@)),
{
    let parts = split(target, ':');
    if parts.len() != 2 {
        return Err(InvalidTarget);
    }
    assert(texts(parts@)[0] == parts@[0]@);
    assert(texts(parts@)[1] == parts@[1]@);
    let names = split(parts[0].as_str(), '/');
    if names.len() != 2 {
        return Err(InvalidTarget);
    }
    assert(texts(names@)[0] == names@[0]@);
    assert(texts(names@)[1] == names@[1]@);
    Ok((names[0].clone(), names[1].clone(), parts[1].clone()))
}

impl InvalidTarget {
    /// The message shown for this error.
    pub fn message(&self) -> (text: String)
        ensures
            text@ == "Invalid target format. Expected: org_slug/game_slug:branch_name"@,
    {
        copy_of("Invalid target format. Expected: org_slug/game_slug:branch_name")
    }
}

/// One push of a build, as far as it has come.
#[derive(Debug, PartialEq, Eq)]
pub struct BuildPush {
    phase: PushPhase,
    config_path: String,
    api_host: String,
    config: Option<WavedashConfig>,
    token: Option<String>,
    upload_dir: Option<String>,
    credentials: Option<TemporaryCredentials>,
    staging: Option<FileStaging>,
    failure: Option<PushError>,
    cleaned: bool,
}

impl BuildPush {
    /// The step the push is at.
    pub closed spec fn phase(&self) -> PushPhase {
        self.phase
    }

    /// The path of the project file.
    pub closed spec fn config_path(&self) -> Seq<char> {
        self.config_path@
    }

    /// The host of the service.
    pub closed spec fn api_host(&self) -> Seq<char> {
        self.api_host@
    }

    /// The project file, once it has loaded.
    pub closed spec fn config(&self) -> Option<WavedashConfig> {
        self.config
    }

    /// The stored token, once it has been read.
    pub closed spec fn token(&self) -> Option<String> {
        self.token
    }

    /// The absolute upload directory, once it has been resolved.
    pub closed spec fn upload_dir(&self) -> Option<String> {
        self.upload_dir
    }

    /// The temporary credentials, once they have been fetched.
    pub closed spec fn credentials(&self) -> Option<TemporaryCredentials> {
        self.credentials
    }

    /// What staging did, once it has run.
    pub closed spec fn staging(&self) -> Option<FileStaging> {
        self.staging
    }

    /// The step that failed, if one did.
    pub closed spec fn failure(&self) -> Option<PushError> {
        self.failure
    }

    /// Whether cleanup has run.
    pub closed spec fn cleaned(&self) -> bool {
        self.cleaned
    }

    /// The course of the push so far: the step it is at, whether a step has
    /// failed, the files that staging added once it has run, and whether
    /// cleanup has run.
    pub open spec fn model(&self) -> PushModel {
        PushModel {
            phase: self.phase(),
            failed: self.failure() is Some,
            staged: match self.staging() {
                Some(staging) => Some(staging.added()),
                None => None,
            },
            cleaned: self.cleaned(),
        }
    }

    /// What holds of every push: its course is one that a push can take, and
    /// it holds what the step it is at needs.
    pub closed spec fn wf(&self) -> bool {
        &&& model_inv(self.model())
        &&& !(self.phase is LoadConfig || self.phase is Done) ==> self.config is Some && engine_of(
            self.config->0@,
        ) is Ok
        &&& (self.phase is ResolvePaths || self.phase is FetchCredentials || self.phase is Stage
            || self.phase is Upload || self.phase is NotifyComplete) ==> self.token is Some
        &&& (self.phase is FetchCredentials || self.phase is Stage || self.phase is Upload
            || self.phase is NotifyComplete) ==> self.upload_dir is Some
        &&& (self.phase is Stage || self.phase is Upload || self.phase is NotifyComplete)
            ==> self.credentials is Some
        &&& self.staging matches Some(staging) ==> staging.wf()
    }

    /// Whether this push holds what a push holds after it has taken in an
    /// event that ended the step `before` was at: what the event brought is
    /// kept, and what was there before stays.
    pub open spec fn holds_after(&self, before: BuildPush, event: PushEvent) -> bool {
        match event {
            PushEvent::ConfigLoaded(Ok(config)) => engine_of(config@) is Ok ==> self.config()
                == Some(config),
            PushEvent::TokenRead(Some(token)) => {
                &&& self.token() == Some(token)
                &&& self.config() == before.config()
            },
            PushEvent::UploadDirResolved(Ok(dir)) => {
                &&& self.upload_dir() == Some(dir)
                &&& self.config() == before.config()
                &&& self.token() == before.token()
            },
            PushEvent::CredentialsFetched(Ok(credentials)) => {
                &&& self.credentials() == Some(credentials)
                &&& self.config() == before.config()
                &&& self.token() == before.token()
                &&& self.upload_dir() == before.upload_dir()
            },
            PushEvent::Staged { staging, error } => {
                &&& self.staging() == Some(staging)
                &&& self.config() == before.config()
                &&& self.token() == before.token()
                &&& self.upload_dir() == before.upload_dir()
                &&& self.credentials() == before.credentials()
            },
            PushEvent::Uploaded(_) => {
                &&& self.staging() == before.staging()
                &&& self.config() == before.config()
                &&& self.token() == before.token()
                &&& self.credentials() == before.credentials()
            },
            PushEvent::Notified(_) => self.staging() == before.staging(),
            PushEvent::CleanedUp => self.staging() == before.staging(),
            _ => true,
        }
    }

    /// A push of the project at `config_path` to the service at `api_host`,
    /// not yet started.
    pub fn new(config_path: &str, api_host: &str) -> (push: BuildPush)
        ensures
            push.wf(),
            push.model() == initial_model(),
            push.config_path() == config_path@,
            push.api_host() == api_host@,
            push.failure() is None,
    {
        BuildPush {
            phase: PushPhase::LoadConfig,
            config_path: copy_of(config_path),
            api_host: copy_of(api_host),
            config: None,
            token: None,
            upload_dir: None,
            credentials: None,
            staging: None,
            failure: None,
            cleaned: false,
        }
    }

    /// The step the push is at.
    pub fn current_phase(&self) -> (phase: PushPhase)
        ensures
            phase == self.phase(),
    {
        self.phase
    }

    fn fail(&mut self, error: PushError)
        requires
            old(self).wf(),
            old(self).phase is LoadConfig || old(self).phase is Authenticate || old(self).phase
                is ResolvePaths || old(self).phase is FetchCredentials,
        ensures
            final(self).wf(),
            final(self).model() == early_step(old(self).model(), false, PushPhase::Done),
            final(self).failure() == Some(error),
            final(self).config_path() == old(self).config_path(),
            final(self).api_host() == old(self).api_host(),
    {
        self.failure = Some(error);
        self.phase = PushPhase::Done;
    }

    /// Takes in what the caller reports. An event that does not end the step
    /// the push is at is ignored. The first failure reported is the one the
    /// push ends with.
    pub fn apply(&mut self, event: PushEvent)
        requires
            old(self).wf(),
            event matches PushEvent::Staged { staging, error } ==> staging.wf(),
        ensures
            final(self).wf(),
            final(self).model() == model_step(old(self).model(), signal_of(event)),
            final(self).config_path() == old(self).config_path(),
            final(self).api_host() == old(self).api_host(),
            !expects(old(self).phase(), signal_of(event)) ==> *final(self) == *old(self),
            expects(old(self).phase(), signal_of(event)) ==> final(self).failure() == if event
                is CleanedUp {
                old(self).failure()
            } else {
                failure_of(event)
            },
            expects(old(self).phase(), signal_of(event)) ==> final(self).holds_after(
                *old(self),
                event,
            ),
    {
        match event {
            PushEvent::ConfigLoaded(loaded) => {
                if self.phase == PushPhase::LoadConfig {
                    match loaded {
                        Ok(config) => match config.engine_type() {
                            Ok(_) => {
                                self.config = Some(config);
                                self.phase = PushPhase::Authenticate;
                            },
                            Err(e) => {
                                self.fail(PushError::Config(e));
                            },
                        },
                        Err(e) => {
                            self.fail(PushError::Config(e));
                        },
                    }
                }
            },
            PushEvent::TokenRead(token) => {
                if self.phase == PushPhase::Authenticate {
                    match token {
                        Some(token) => {
                            self.token = Some(token);
                            self.phase = PushPhase::ResolvePaths;
                        },
                        None => {
                            self.fail(PushError::Auth(AuthError::NotAuthenticated));
                        },
                    }
                }
            },
            PushEvent::UploadDirResolved(resolved) => {
                if self.phase == PushPhase::ResolvePaths {
                    match resolved {
                        Ok(dir) => {
                            self.upload_dir = Some(dir);
                            self.phase = PushPhase::FetchCredentials;
                        },
                        Err(e) => {
                            self.fail(PushError::Filesystem(e));
                        },
                    }
                }
            },
            PushEvent::CredentialsFetched(fetched) => {
                if self.phase == PushPhase::FetchCredentials {
                    match fetched {
                        Ok(credentials) => {
                            self.credentials = Some(credentials);
                            self.phase = PushPhase::Stage;
                        },
                        Err(e) => {
                            self.fail(PushError::Api(e));
                        },
                    }
                }
            },
            PushEvent::Staged { staging, error } => {
                if self.phase == PushPhase::Stage {
                    self.staging = Some(staging);
                    match error {
                        None => {
                            self.phase = PushPhase::Upload;
                        },
                        Some(e) => {
                            self.failure = Some(PushError::Filesystem(e));
                            self.phase = PushPhase::Cleanup;
                        },
                    }
                }
            },
            PushEvent::Uploaded(uploaded) => {
                if self.phase == PushPhase::Upload {
                    match uploaded {
                        Ok(()) => {
                            self.phase = PushPhase::NotifyComplete;
                        },
                        Err(e) => {
                            self.failure = Some(PushError::Upload(e));
                            self.phase = PushPhase::Cleanup;
                        },
                    }
                }
            },
            PushEvent::Notified(notified) => {
                if self.phase == PushPhase::NotifyComplete {
                    match notified {
                        Ok(()) => {},
                        Err(e) => {
                            self.failure = Some(PushError::Api(e));
                        },
                    }
                    self.phase = PushPhase::Cleanup;
                }
            },
            PushEvent::CleanedUp => {
                if self.phase == PushPhase::Cleanup {
                    self.cleaned = true;
                    self.phase = PushPhase::Done;
                }
            },
        }
    }

    /// What the caller does next: the action of the step the push is at.
    ///
    /// The completion notice is asked for in the notification step and in no
    /// other; cleanup names exactly the files that staging added; a push
    /// that is over ends with its failure, if it has one.
    pub fn next_action(&self) -> (action: PushAction)
        requires
            self.wf(),
        ensures
            match action {
                PushAction::LoadConfig { path } => self.phase() is LoadConfig && path@
                    == self.config_path(),
                PushAction::ReadToken => self.phase() is Authenticate,
                PushAction::ResolveUploadDir { config_path, upload_dir } => self.phase()
                    is ResolvePaths && config_path@ == self.config_path() && upload_dir@
                    == self.config()->0@.upload_dir,
                PushAction::FetchCredentials(request) => {
                    &&& self.phase() is FetchCredentials
                    &&& request.method == Method::Post
                    &&& request.url@ == self.api_host() + "/api"@ + credentials_path(
                        self.config()->0@,
                    )
                    &&& request.authorization@ == "Bearer "@ + self.token()->0@
                    &&& request.body is Some
                    &&& body_view(request.body->0@) == credentials_body(self.config()->0@)
                },
                PushAction::Stage { config_path, upload_dir, entrypoint } => {
                    &&& self.phase() is Stage
                    &&& config_path@ == self.config_path()
                    &&& upload_dir@ == self.upload_dir()->0@
                    &&& match self.config()->0@.custom {
                        Some((_, wanted)) => entrypoint is Some && entrypoint->0@ == wanted,
                        None => entrypoint is None,
                    }
                },
                PushAction::Upload(job) => {
                    &&& self.phase() is Upload
                    &&& job.upload_dir@ == self.upload_dir()->0@
                    &&& job.bucket@ == self.credentials()->0.bucket_name@
                    &&& job.prefix@ == self.credentials()->0.r2_key_prefix@
                    &&& job.credentials.access_key_id@ == self.credentials()->0.access_key_id@
                    &&& job.credentials.secret_access_key@
                        == self.credentials()->0.secret_access_key@
                    &&& job.credentials.session_token@ == self.credentials()->0.session_token@
                    &&& job.credentials.endpoint@ == self.credentials()->0.endpoint@
                },
                PushAction::NotifyComplete(request) => {
                    &&& self.phase() is NotifyComplete
                    &&& request.method == Method::Post
                    &&& request.url@ == self.api_host() + "/api"@ + completed_path(
                        self.config()->0@,
                        self.credentials()->0.game_build_id@,
                    )
                    &&& request.authorization@ == "Bearer "@ + self.token()->0@
                    &&& request.body is None
                },
                PushAction::Cleanup { files } => self.phase() is Cleanup && self.staging() is Some
                    && texts(files@) == self.staging()->0.added(),
                PushAction::Finish(result) => self.phase() is Done && match self.failure() {
                    Some(e) => result == Err::<(), PushError>(e),
                    None => result == Ok::<(), PushError>(()),
                },
            },
    {
        match self.phase {
            PushPhase::LoadConfig => PushAction::LoadConfig { path: self.config_path.clone() },
            PushPhase::Authenticate => PushAction::ReadToken,
            PushPhase::ResolvePaths => {
                let config = self.config.as_ref().unwrap();
                PushAction::ResolveUploadDir {
                    config_path: self.config_path.clone(),
                    upload_dir: config.upload_dir.clone(),
                }
            },
            PushPhase::FetchCredentials => {
                let config = self.config.as_ref().unwrap();
                let token = self.token.as_ref().unwrap();
                let client = ApiClient::for_host(self.api_host.as_str(), token.as_str());
                match temp_credentials_request(&client, config) {
                    Ok(request) => PushAction::FetchCredentials(request),
                    Err(_) => vstd::pervasive::unreached(),
                }
            },
            PushPhase::Stage => {
                let config = self.config.as_ref().unwrap();
                let upload_dir = self.upload_dir.as_ref().unwrap();
                let entrypoint = match config.entrypoint() {
                    Some(entrypoint) => Some(copy_of(entrypoint)),
                    None => None,
                };
                PushAction::Stage {
                    config_path: self.config_path.clone(),
                    upload_dir: upload_dir.clone(),
                    entrypoint,
                }
            },
            PushPhase::Upload => {
                let upload_dir = self.upload_dir.as_ref().unwrap();
                let credentials = self.credentials.as_ref().unwrap();
                PushAction::Upload(
                    UploadJob {
                        upload_dir: upload_dir.clone(),
                        bucket: credentials.bucket_name.clone(),
                        prefix: credentials.r2_key_prefix.clone(),
                        credentials: credentials.r2_config(),
                    },
                )
            },
            PushPhase::NotifyComplete => {
                let config = self.config.as_ref().unwrap();
                let token = self.token.as_ref().unwrap();
                let credentials = self.credentials.as_ref().unwrap();
                let client = ApiClient::for_host(self.api_host.as_str(), token.as_str());
                PushAction::NotifyComplete(
                    upload_completed_request(&client, config, credentials.game_build_id.as_str()),
                )
            },
            PushPhase::Cleanup => {
                let staging = self.staging.as_ref().unwrap();
                PushAction::Cleanup { files: staging.cleanup() }
            },
            PushPhase::Done => match &self.failure {
                Some(e) => PushAction::Finish(Err(e.duplicate())),
                None => PushAction::Finish(Ok(())),
            },
        }
    }
}

/// Every push is at a point that a push can be at: while it is before
/// cleanup nothing has failed, so that the completion notice is only ever
/// asked for without a failure; from the upload on it holds what staging
/// did; and it is over only after cleanup, unless it failed before staging.
pub proof fn law_push_takes_a_possible_course(push: BuildPush)
    requires
        push.wf(),
    ensures
        model_inv(push.model()),
        push.phase() is NotifyComplete ==> push.failure() is None,
        (push.phase() is Upload || push.phase() is NotifyComplete || push.phase() is Cleanup)
            ==> push.staging() is Some,
        push.phase() is Done && push.staging() is Some ==> push.cleaned(),
        push.phase() is Done && push.failure() is None ==> push.staging() is Some && push.cleaned(),
{
}

} // verus!
