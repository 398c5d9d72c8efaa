//! The upload of a build directory to object storage: how files map to object
//! keys, and the bounded fan-out that transfers them.
//!
//! Nothing here touches the disk or the network. The caller walks the
//! directory and hands over what it found; it then drives an
//! [`UploadSession`], performing each transfer that the session launches and
//! reporting how it ended.

use vstd::prelude::*;
use crate::text::{
    concat2,
    concat3,
    free_of,
    join,
    lemma_join_begins_with_first,
    lemma_split_join,
    join_with,
    texts,
    trim_end,
    trim_end_matches,
    trim_start,
    trim_start_matches,
};

verus! {

/// Transfers in flight at once, unless the caller says otherwise.
pub const DEFAULT_CONCURRENCY: usize = 10;

/// Bytes copied from a local file to its remote writer in one step (8 MiB).
pub const WRITE_BUFFER_SIZE: usize = 8388608;

/// Short-lived credentials for one bucket.
#[derive(Debug, PartialEq, Eq)]
pub struct R2Config {
    pub access_key_id: String,
    pub secret_access_key: String,
    pub session_token: String,
    pub endpoint: String,
}

/// Everything a storage client needs to reach the bucket.
#[derive(Debug, PartialEq, Eq)]
pub struct StorageTarget {
    pub endpoint: String,
    pub bucket: String,
    pub region: String,
    pub access_key_id: String,
    pub secret_access_key: String,
    /// Absent when the credentials came without a session token.
    pub session_token: Option<String>,
}

/// One regular file found below the source directory.
#[derive(Debug, PartialEq, Eq)]
pub struct SourceFile {
    /// Absolute path on the local filesystem.
    pub path: String,
    /// The path below the source directory, one component per element.
    pub relative: Vec<String>,
    /// Length in bytes, as the filesystem reported it.
    pub size: u64,
}

/// One file to upload and where it goes.
#[derive(Debug, PartialEq, Eq)]
pub struct ManifestEntry {
    pub local_path: String,
    pub object_key: String,
    pub size_bytes: u64,
}

/// The step of a file transfer at which it broke.
#[derive(Debug, Clone, Copy, PartialEq, Eq, Structural)]
pub enum TransferStage {
    OpenFile,
    CreateWriter,
    Read,
    Write,
    Finalize,
}

/// How one file transfer failed.
#[derive(Debug, PartialEq, Eq)]
pub struct TransferFault {
    pub stage: TransferStage,
    pub detail: String,
}

/// Why an upload did not happen or did not finish.
#[derive(Debug, PartialEq, Eq)]
pub enum UploadError {
    /// The source directory holds no regular file.
    EmptyManifest,
    /// The source directory could not be walked, or a file's size could not
    /// be read.
    Scan { path: String, detail: String },
    /// A file's transfer failed before its writer was finalized.
    Transfer { local_path: String, object_key: String, stage: TransferStage, detail: String },
    /// A file's bytes were written but closing the remote writer failed.
    Finalize { object_key: String, detail: String },
}

/// Where one manifest entry stands.
#[derive(Debug, Clone, Copy, PartialEq, Eq, Structural)]
pub enum TransferStatus {
    Pending,
    InFlight,
    Done,
    Failed,
}

/// What the driver of an [`UploadSession`] does next.
#[derive(Debug, PartialEq, Eq)]
pub enum UploadAction {
    /// Start transferring the entry with this index.
    Launch(usize),
    /// Nothing to start: wait for a running transfer to end.
    Wait,
    /// The upload is over, with this result.
    Finish(Result<(), UploadError>),
}

/// The `/` that separates the parts of an object key.
pub open spec fn slash() -> Seq<char> {
    seq!['/']
}

/// The key under which a file is stored: the prefix, a slash, and the file's
/// path below the source directory with forward slashes. Slashes at the seam
/// are not doubled, and an empty prefix adds nothing.
pub open spec fn object_key(prefix: Seq<char>, relative: Seq<Seq<char>>) -> Seq<char> {
    let relative_key = join(relative, slash());
    if prefix.len() == 0 {
        relative_key
    } else {
        trim_end(prefix, '/') + slash() + trim_start(relative_key, '/')
    }
}

/// A number, or `u64::MAX` if it is larger than that.
pub open spec fn saturated(n: nat) -> u64 {
    if n <= u64::MAX {
        n as u64
    } else {
        u64::MAX
    }
}

/// The sizes of the files, added up.
pub open spec fn total_size(files: Seq<SourceFile>) -> nat
    decreases files.len(),
{
    if files.len() == 0 {
        0
    } else {
        total_size(files.drop_last()) + files.last().size as nat
    }
}

/// The sizes of the manifest's entries, added up.
pub open spec fn manifest_bytes(entries: Seq<ManifestEntry>) -> nat
    decreases entries.len(),
{
    if entries.len() == 0 {
        0
    } else {
        manifest_bytes(entries.drop_last()) + entries.last().size_bytes as nat
    }
}

/// Whether `entry` is the manifest entry of `file` under `prefix`.
pub open spec fn entry_for(file: SourceFile, prefix: Seq<char>, entry: ManifestEntry) -> bool {
    &&& entry.local_path@ == file.path@
    &&& entry.object_key@ == object_key(prefix, texts(file.relative@))
    &&& entry.size_bytes == file.size
}

/// Whether `entries` is the manifest of `files` under `prefix`: one entry per
/// file, in the same order.
pub open spec fn manifest_of(
    files: Seq<SourceFile>,
    prefix: Seq<char>,
    entries: Seq<ManifestEntry>,
) -> bool {
    &&& entries.len() == files.len()
    &&& forall|i: int| 0 <= i < files.len() ==> entry_for(files[i], prefix, #[trigger] entries[i])
}

/// How many entries are being transferred.
pub open spec fn count_in_flight(status: Seq<TransferStatus>) -> nat
    decreases status.len(),
{
    if status.len() == 0 {
        0
    } else {
        count_in_flight(status.drop_last()) + if status.last() is InFlight {
            1nat
        } else {
            0nat
        }
    }
}

/// The bytes of the entries whose transfer has completed.
pub open spec fn bytes_done(entries: Seq<ManifestEntry>, status: Seq<TransferStatus>) -> nat
    decreases status.len(),
{
    if status.len() == 0 || entries.len() != status.len() {
        0
    } else {
        bytes_done(entries.drop_last(), status.drop_last()) + if status.last() is Done {
            entries.last().size_bytes as nat
        } else {
            0nat
        }
    }
}

/// The error that a failed transfer of `entry` becomes.
pub open spec fn fault_error(entry: ManifestEntry, fault: TransferFault, e: UploadError) -> bool {
    if fault.stage is Finalize {
        e matches UploadError::Finalize { object_key, detail } && object_key@ == entry.object_key@
            && detail@ == fault.detail@
    } else {
        e matches UploadError::Transfer { local_path, object_key, stage, detail } && local_path@
            == entry.local_path@ && object_key@ == entry.object_key@ && stage == fault.stage
            && detail@ == fault.detail@
    }
}

/// Changing one entry's status changes the number in flight by what that
/// entry gains or loses.
pub proof fn lemma_count_update(status: Seq<TransferStatus>, i: int, to: TransferStatus)
    requires
        0 <= i < status.len(),
    ensures
        count_in_flight(status.update(i, to)) + (if status[i] is InFlight {
            1nat
        } else {
            0nat
        }) == count_in_flight(status) + (if to is InFlight {
            1nat
        } else {
            0nat
        }),
    decreases status.len(),
{
    if i == status.len() - 1 {
        assert(status.update(i, to).drop_last() =~= status.drop_last());
    } else {
        lemma_count_update(status.drop_last(), i, to);
        assert(status.update(i, to).drop_last() =~= status.drop_last().update(i, to));
    }
}

/// Changing one entry's status changes the bytes done by that entry's size,
/// if it becomes or stops being done.
pub proof fn lemma_bytes_update(
    entries: Seq<ManifestEntry>,
    status: Seq<TransferStatus>,
    i: int,
    to: TransferStatus,
)
    requires
        0 <= i < status.len(),
        entries.len() == status.len(),
    ensures
        bytes_done(entries, status.update(i, to)) + (if status[i] is Done {
            entries[i].size_bytes as nat
        } else {
            0nat
        }) == bytes_done(entries, status) + (if to is Done {
            entries[i].size_bytes as nat
        } else {
            0nat
        }),
    decreases status.len(),
{
    if i == status.len() - 1 {
        assert(status.update(i, to).drop_last() =~= status.drop_last());
    } else {
        lemma_bytes_update(entries.drop_last(), status.drop_last(), i, to);
        assert(status.update(i, to).drop_last() =~= status.drop_last().update(i, to));
    }
}

/// With nothing in flight, no entry is marked in flight.
pub proof fn lemma_count_zero(status: Seq<TransferStatus>)
    requires
        count_in_flight(status) == 0,
    ensures
        forall|i: int| 0 <= i < status.len() ==> !(#[trigger] status[i] is InFlight),
    decreases status.len(),
{
    if status.len() > 0 {
        lemma_count_zero(status.drop_last());
        assert forall|i: int| 0 <= i < status.len() implies !(#[trigger] status[i] is InFlight) by {
            if i < status.len() - 1 {
                assert(status.drop_last()[i] == status[i]);
            }
        }
    }
}

/// Where every entry is pending, nothing is in flight.
pub proof fn lemma_count_pending(status: Seq<TransferStatus>)
    requires
        forall|i: int| 0 <= i < status.len() ==> #[trigger] status[i] is Pending,
    ensures
        count_in_flight(status) == 0,
    decreases status.len(),
{
    if status.len() > 0 {
        assert forall|i: int| 0 <= i < status.len() - 1 implies #[trigger] status.drop_last()[i] is Pending by {
            assert(status.drop_last()[i] == status[i]);
        }
        lemma_count_pending(status.drop_last());
    }
}

/// Where no entry is done, no bytes are done.
pub proof fn lemma_bytes_none_done(entries: Seq<ManifestEntry>, status: Seq<TransferStatus>)
    requires
        forall|i: int| 0 <= i < status.len() ==> !(#[trigger] status[i] is Done),
    ensures
        bytes_done(entries, status) == 0,
    decreases status.len(),
{
    if status.len() > 0 && entries.len() == status.len() {
        assert forall|i: int| 0 <= i < status.len() - 1 implies !(#[trigger] status.drop_last()[i] is Done) by {
            assert(status.drop_last()[i] == status[i]);
        }
        lemma_bytes_none_done(entries.drop_last(), status.drop_last());
    }
}

/// Where every entry is done, the bytes done are the bytes of the manifest.
pub proof fn lemma_bytes_all_done(entries: Seq<ManifestEntry>, status: Seq<TransferStatus>)
    requires
        entries.len() == status.len(),
        forall|i: int| 0 <= i < status.len() ==> #[trigger] status[i] is Done,
    ensures
        bytes_done(entries, status) == manifest_bytes(entries),
    decreases status.len(),
{
    if status.len() > 0 {
        assert forall|i: int| 0 <= i < status.len() - 1 implies #[trigger] status.drop_last()[i] is Done by {
            assert(status.drop_last()[i] == status[i]);
        }
        lemma_bytes_all_done(entries.drop_last(), status.drop_last());
    }
}

/// The bytes done never exceed the bytes of the manifest.
pub proof fn lemma_bytes_bounded(entries: Seq<ManifestEntry>, status: Seq<TransferStatus>)
    ensures
        bytes_done(entries, status) <= manifest_bytes(entries),
    decreases status.len(),
{
    if status.len() > 0 && entries.len() == status.len() {
        lemma_bytes_bounded(entries.drop_last(), status.drop_last());
    }
}

/// The key under which a file is stored.
pub fn build_object_key(prefix: &str, relative: &Vec<String>) -> (key: String)
    ensures
        key@ == object_key(prefix@, texts(relative@)),
{
    proof {
        reveal_strlit("/");
        assert("/"@ =~= slash());
    }
    let relative_key = join_with(relative, "/");
    if prefix.is_empty() {
        relative_key
    } else {
        let head = trim_end_matches(prefix, '/');
        let tail = trim_start_matches(relative_key.as_str(), '/');
        let mut key = concat2(head.as_str(), "/");
        key = concat2(key.as_str(), tail.as_str());
        key
    }
}

/// The manifest of the files found below a source directory, and the bytes
/// they hold in all (at most `u64::MAX`).
pub fn build_manifest(files: &Vec<SourceFile>, prefix: &str) -> (r: (Vec<ManifestEntry>, u64))
    ensures
        manifest_of(files@, prefix@, r.0@),
        manifest_bytes(r.0@) == total_size(files@),
        r.1 == saturated(total_size(files@)),
{
    let mut entries: Vec<ManifestEntry> = Vec::new();
    let mut total_bytes: u64 = 0;
    let mut i: usize = 0;
    while i < files.len()
        invariant
            i <= files.len(),
            manifest_of(files@.take(i as int), prefix@, entries@),
            manifest_bytes(entries@) == total_size(files@.take(i as int)),
            total_bytes == saturated(total_size(files@.take(i as int))),
        decreases files.len() - i,
    {
        let file = &files[i];
        let entry = ManifestEntry {
            local_path: file.path.clone(),
            object_key: build_object_key(prefix, &file.relative),
            size_bytes: file.size,
        };
        proof {
            assert(files@.take(i + 1).drop_last() == files@.take(i as int));
            assert(entries@.push(entry).drop_last() == entries@);
        }
        entries.push(entry);
        total_bytes = total_bytes.saturating_add(file.size);
        i += 1;
    }
    proof {
        assert(files@.take(files.len() as int) == files@);
    }
    (entries, total_bytes)
}

impl UploadError {
    /// A copy of the error.
    pub fn duplicate(&self) -> (copy: UploadError)
        ensures
            copy == *self,
    {
        match self {
            UploadError::EmptyManifest => UploadError::EmptyManifest,
            UploadError::Scan { path, detail } => UploadError::Scan {
                path: path.clone(),
                detail: detail.clone(),
            },
            UploadError::Transfer { local_path, object_key, stage, detail } => UploadError::Transfer {
                local_path: local_path.clone(),
                object_key: object_key.clone(),
                stage: *stage,
                detail: detail.clone(),
            },
            UploadError::Finalize { object_key, detail } => UploadError::Finalize {
                object_key: object_key.clone(),
                detail: detail.clone(),
            },
        }
    }
}

/// Uploads build directories to one bucket.
#[derive(Debug, PartialEq, Eq)]
pub struct R2Uploader {
    target: StorageTarget,
    concurrency: usize,
}

impl R2Uploader {
    /// Where this uploader sends its objects.
    pub closed spec fn target_spec(&self) -> StorageTarget {
        self.target
    }

    /// How many transfers this uploader asks to run at once.
    pub closed spec fn concurrency_spec(&self) -> usize {
        self.concurrency
    }

    /// An uploader for `bucket` with the given credentials, the region
    /// `auto`, and the default concurrency. An empty session token is left
    /// out.
    pub fn new(config: &R2Config, bucket: &str) -> (uploader: R2Uploader)
        ensures
            uploader.concurrency_spec() == DEFAULT_CONCURRENCY,
            uploader.target_spec().endpoint@ == config.endpoint@,
            uploader.target_spec().bucket@ == bucket@,
            uploader.target_spec().region@ == "auto"@,
            uploader.target_spec().access_key_id@ == config.access_key_id@,
            uploader.target_spec().secret_access_key@ == config.secret_access_key@,
            config.session_token@.len() == 0 ==> uploader.target_spec().session_token is None,
            config.session_token@.len() > 0 ==> uploader.target_spec().session_token is Some
                && uploader.target_spec().session_token->0@ == config.session_token@,
    {
        let session_token = if config.session_token.as_str().is_empty() {
            None
        } else {
            Some(config.session_token.clone())
        };
        R2Uploader {
            target: StorageTarget {
                endpoint: config.endpoint.clone(),
                bucket: crate::text::copy_of(bucket),
                region: crate::text::copy_of("auto"),
                access_key_id: config.access_key_id.clone(),
                secret_access_key: config.secret_access_key.clone(),
                session_token,
            },
            concurrency: DEFAULT_CONCURRENCY,
        }
    }

    /// The same uploader with another concurrency; zero changes nothing.
    pub fn with_concurrency(self, concurrency: usize) -> (uploader: R2Uploader)
        ensures
            uploader.target_spec() == self.target_spec(),
            uploader.concurrency_spec() == if concurrency > 0 {
                concurrency
            } else {
                self.concurrency_spec()
            },
    {
        let mut uploader = self;
        if concurrency > 0 {
            uploader.concurrency = concurrency;
        }
        uploader
    }

    /// Where this uploader sends its objects.
    pub fn target(&self) -> (target: &StorageTarget)
        ensures
            *target == self.target_spec(),
    {
        &self.target
    }

    /// How many transfers this uploader asks to run at once.
    pub fn concurrency(&self) -> (n: usize)
        ensures
            n == self.concurrency_spec(),
    {
        self.concurrency
    }

    /// Starts the upload of the files found below a source directory: builds
    /// the manifest under `prefix` and opens a session on it, with nothing
    /// launched yet and at least one transfer allowed at a time. A directory
    /// without files is an error, not an upload of nothing.
    pub fn upload_directory(&self, files: &Vec<SourceFile>, prefix: &str) -> (r: Result<
        UploadSession,
        UploadError,
    >)
        ensures
            files.len() == 0 <==> r is Err,
            r matches Err(e) ==> e is EmptyManifest,
            r matches Ok(session) ==> {
                &&& session.wf()
                &&& manifest_of(files@, prefix@, session.manifest())
                &&& session.total() == saturated(total_size(files@))
                &&& session.limit() == if self.concurrency_spec() >= 1 {
                    self.concurrency_spec()
                } else {
                    1
                }
                &&& session.launched() == 0
                &&& session.in_flight_count() == 0
                &&& session.uploaded() == 0
                &&& session.failure() is None
                &&& session.all_pending()
            },
    {
        let (manifest, total_bytes) = build_manifest(files, prefix);
        if manifest.len() == 0 {
            return Err(UploadError::EmptyManifest);
        }
        let concurrency = if self.concurrency >= 1 {
            self.concurrency
        } else {
            1
        };
        Ok(UploadSession::new(manifest, total_bytes, concurrency))
    }
}

/// One upload in progress: which entries have been launched, which are in
/// flight, what has completed, and whether anything has failed.
#[derive(Debug, PartialEq, Eq)]
pub struct UploadSession {
    entries: Vec<ManifestEntry>,
    status: Vec<TransferStatus>,
    total_bytes: u64,
    concurrency: usize,
    next: usize,
    in_flight: usize,
    uploaded_bytes: u64,
    failure: Option<UploadError>,
}

impl UploadSession {
    /// The entries to upload.
    pub closed spec fn manifest(&self) -> Seq<ManifestEntry> {
        self.entries@
    }

    /// Where each entry stands.
    pub closed spec fn statuses(&self) -> Seq<TransferStatus> {
        self.status@
    }

    /// The size of the whole manifest, as computed when it was built.
    pub closed spec fn total(&self) -> u64 {
        self.total_bytes
    }

    /// The most transfers that may run at once.
    pub closed spec fn limit(&self) -> usize {
        self.concurrency
    }

    /// How many entries have been launched so far; they are launched in
    /// manifest order.
    pub closed spec fn launched(&self) -> usize {
        self.next
    }

    /// How many transfers are running.
    pub closed spec fn in_flight_count(&self) -> usize {
        self.in_flight
    }

    /// The byte counter: the sizes of the completed entries.
    pub closed spec fn uploaded(&self) -> u64 {
        self.uploaded_bytes
    }

    /// The first failure reported, if any.
    pub closed spec fn failure(&self) -> Option<UploadError> {
        self.failure
    }

    /// What holds of every session, whatever has been reported to it.
    pub closed spec fn wf(&self) -> bool {
        &&& self.status@.len() == self.entries@.len()
        &&& self.entries@.len() >= 1
        &&& self.concurrency >= 1
        &&& self.next <= self.entries@.len()
        &&& forall|i: int| self.next <= i < self.status@.len() ==> #[trigger] self.status@[i] is Pending
        &&& forall|i: int| 0 <= i < self.next ==> !(#[trigger] self.status@[i] is Pending)
        &&& self.in_flight == count_in_flight(self.status@)
        &&& self.in_flight <= self.concurrency
        &&& self.uploaded_bytes == saturated(bytes_done(self.entries@, self.status@))
        &&& self.total_bytes == saturated(manifest_bytes(self.entries@))
        &&& (self.failure is None <==> forall|i: int|
            0 <= i < self.status@.len() ==> !(#[trigger] self.status@[i] is Failed))
    }

    /// The value the progress indicator shows: the byte counter, never more
    /// than the total.
    pub open spec fn position(&self) -> u64 {
        if self.uploaded() <= self.total() {
            self.uploaded()
        } else {
            self.total()
        }
    }

    /// A session on a manifest, with nothing launched.
    fn new(entries: Vec<ManifestEntry>, total_bytes: u64, concurrency: usize) -> (session:
        UploadSession)
        requires
            entries.len() >= 1,
            concurrency >= 1,
            total_bytes == saturated(manifest_bytes(entries@)),
        ensures
            session.wf(),
            session.manifest() == entries@,
            session.total() == total_bytes,
            session.limit() == concurrency,
            session.launched() == 0,
            session.in_flight_count() == 0,
            session.uploaded() == 0,
            session.failure() is None,
            session.all_pending(),
    {
        let mut status: Vec<TransferStatus> = Vec::new();
        let mut i: usize = 0;
        while i < entries.len()
            invariant
                i <= entries.len(),
                status@.len() == i,
                forall|k: int| 0 <= k < i ==> #[trigger] status@[k] is Pending,
            decreases entries.len() - i,
        {
            status.push(TransferStatus::Pending);
            i += 1;
        }
        proof {
            lemma_count_pending(status@);
            lemma_bytes_none_done(entries@, status@);
        }
        UploadSession {
            entries,
            status,
            total_bytes,
            concurrency,
            next: 0,
            in_flight: 0,
            uploaded_bytes: 0,
            failure: None,
        }
    }

    /// How many entries the manifest has.
    pub fn len(&self) -> (n: usize)
        ensures
            n == self.manifest().len(),
    {
        self.entries.len()
    }

    /// The entry with the given index.
    pub fn entry(&self, index: usize) -> (entry: &ManifestEntry)
        requires
            index < self.manifest().len(),
        ensures
            *entry == self.manifest()[index as int],
    {
        &self.entries[index]
    }

    /// The size of the whole manifest.
    pub fn total_bytes(&self) -> (n: u64)
        ensures
            n == self.total(),
    {
        self.total_bytes
    }

    /// The most transfers that may run at once.
    pub fn concurrency(&self) -> (n: usize)
        ensures
            n == self.limit(),
    {
        self.concurrency
    }

    /// How many transfers are running.
    pub fn in_flight(&self) -> (n: usize)
        ensures
            n == self.in_flight_count(),
    {
        self.in_flight
    }

    /// The value the progress indicator shows.
    pub fn progress_position(&self) -> (n: u64)
        ensures
            n == self.position(),
    {
        if self.uploaded_bytes <= self.total_bytes {
            self.uploaded_bytes
        } else {
            self.total_bytes
        }
    }

    /// What the driver does next.
    ///
    /// After a failure the upload is over with the first error reported, and
    /// nothing more is launched. Otherwise the next pending entry is launched
    /// while fewer transfers than the limit are running; with nothing to
    /// launch the driver waits for a running transfer, and when none is left
    /// the upload has succeeded. Only a launch changes the session.
    pub fn next_action(&mut self) -> (action: UploadAction)
        requires
            old(self).wf(),
        ensures
            final(self).wf(),
            final(self).manifest() == old(self).manifest(),
            final(self).statuses().len() == old(self).manifest().len(),
            final(self).total() == old(self).total(),
            final(self).limit() == old(self).limit(),
            final(self).uploaded() == old(self).uploaded(),
            final(self).failure() == old(self).failure(),
            match action {
                UploadAction::Launch(index) => {
                    &&& old(self).failure() is None
                    &&& old(self).in_flight_count() < old(self).limit()
                    &&& index == old(self).launched()
                    &&& index < old(self).manifest().len()
                    &&& final(self).launched() == index + 1
                    &&& final(self).in_flight_count() == old(self).in_flight_count() + 1
                    &&& final(self).statuses() == old(self).statuses().update(
                        index as int,
                        TransferStatus::InFlight,
                    )
                },
                UploadAction::Wait => {
                    &&& old(self).failure() is None
                    &&& old(self).in_flight_count() > 0
                    &&& (old(self).in_flight_count() == old(self).limit() || old(self).launched()
                        == old(self).manifest().len())
                    &&& *final(self) == *old(self)
                },
                UploadAction::Finish(Ok(())) => {
                    &&& old(self).failure() is None
                    &&& old(self).in_flight_count() == 0
                    &&& old(self).launched() == old(self).manifest().len()
                    &&& *final(self) == *old(self)
                },
                UploadAction::Finish(Err(e)) => {
                    &&& old(self).failure() == Some(e)
                    &&& *final(self) == *old(self)
                },
            },
    {
        match &self.failure {
            Some(e) => {
                return UploadAction::Finish(Err(e.duplicate()));
            },
            None => {},
        }
        if self.in_flight < self.concurrency && self.next < self.entries.len() {
            let index = self.next;
            proof {
                lemma_count_update(self.status@, index as int, TransferStatus::InFlight);
                lemma_bytes_update(self.entries@, self.status@, index as int, TransferStatus::InFlight);
            }
            self.status.set(index, TransferStatus::InFlight);
            self.next = index + 1;
            self.in_flight = self.in_flight + 1;
            UploadAction::Launch(index)
        } else if self.in_flight > 0 {
            UploadAction::Wait
        } else {
            UploadAction::Finish(Ok(()))
        }
    }

    /// Records how the transfer of one entry ended and returns the new value
    /// of the progress indicator.
    ///
    /// A completed transfer adds the entry's whole size to the byte counter.
    /// A failed one is kept as the session's failure unless an earlier one
    /// is already there. A report for an entry that is not in flight changes
    /// nothing.
    pub fn transfer_finished(&mut self, index: usize, outcome: Result<(), TransferFault>) -> (position:
        u64)
        requires
            old(self).wf(),
        ensures
            final(self).wf(),
            position == final(self).position(),
            final(self).manifest() == old(self).manifest(),
            final(self).statuses().len() == old(self).manifest().len(),
            final(self).total() == old(self).total(),
            final(self).limit() == old(self).limit(),
            final(self).launched() == old(self).launched(),
            !(index < old(self).manifest().len() && old(self).statuses()[index as int] is InFlight)
                ==> *final(self) == *old(self),
            index < old(self).manifest().len() && old(self).statuses()[index as int] is InFlight
                ==> {
                &&& final(self).in_flight_count() == old(self).in_flight_count() - 1
                &&& match outcome {
                    Ok(()) => {
                        &&& final(self).statuses() == old(self).statuses().update(
                            index as int,
                            TransferStatus::Done,
                        )
                        &&& final(self).uploaded() == saturated(
                            old(self).uploaded() as nat + old(self).manifest()[index as int].size_bytes as nat,
                        )
                        &&& final(self).failure() == old(self).failure()
                    },
                    Err(fault) => {
                        &&& final(self).statuses() == old(self).statuses().update(
                            index as int,
                            TransferStatus::Failed,
                        )
                        &&& final(self).uploaded() == old(self).uploaded()
                        &&& final(self).failure() is Some
                        &&& old(self).failure() is Some ==> final(self).failure() == old(
                            self,
                        ).failure()
                        &&& old(self).failure() is None ==> fault_error(
                            old(self).manifest()[index as int],
                            fault,
                            final(self).failure()->0,
                        )
                    },
                }
            },
    {
        if index >= self.entries.len() {
            return self.progress_position();
        }
        match self.status[index] {
            TransferStatus::InFlight => {},
            _ => {
                return self.progress_position();
            },
        }
        proof {
            lemma_count_update(
                self.status@,
                index as int,
                if outcome is Ok {
                    TransferStatus::Done
                } else {
                    TransferStatus::Failed
                },
            );
            lemma_bytes_update(
                self.entries@,
                self.status@,
                index as int,
                if outcome is Ok {
                    TransferStatus::Done
                } else {
                    TransferStatus::Failed
                },
            );
        }
        let ghost before = self.status@;
        match outcome {
            Ok(()) => {
                self.status.set(index, TransferStatus::Done);
                self.in_flight = self.in_flight - 1;
                self.uploaded_bytes = self.uploaded_bytes.saturating_add(
                    self.entries[index].size_bytes,
                );
                proof {
                    assert forall|i: int| 0 <= i < before.len() implies (#[trigger] before[i] is Failed)
                        == (self.status@[i] is Failed) by {}
                    assert forall|i: int| 0 <= i < self.status@.len() implies (
                    #[trigger] self.status@[i] is Failed) == (before[i] is Failed) by {}
                }
            },
            Err(fault) => {
                self.status.set(index, TransferStatus::Failed);
                self.in_flight = self.in_flight - 1;
                if self.failure.is_none() {
                    let entry = &self.entries[index];
                    let error = match fault.stage {
                        TransferStage::Finalize => UploadError::Finalize {
                            object_key: entry.object_key.clone(),
                            detail: fault.detail,
                        },
                        _ => UploadError::Transfer {
                            local_path: entry.local_path.clone(),
                            object_key: entry.object_key.clone(),
                            stage: fault.stage,
                            detail: fault.detail,
                        },
                    };
                    self.failure = Some(error);
                }
                assert(self.status@[index as int] is Failed);
            },
        }
        self.progress_position()
    }

    /// Whether no entry has been launched yet.
    pub open spec fn all_pending(&self) -> bool {
        &&& self.statuses().len() == self.manifest().len()
        &&& forall|i: int|
            0 <= i < self.statuses().len() ==> #[trigger] self.statuses()[i] is Pending
    }

    /// Whether every entry has been uploaded.
    pub open spec fn all_done(&self) -> bool {
        forall|i: int| 0 <= i < self.statuses().len() ==> #[trigger] self.statuses()[i] is Done
    }
}

/// In every session each entry of the manifest has one status, the number
/// of running transfers is the number of entries marked in flight, and it
/// never exceeds the session's limit.
pub proof fn law_in_flight_bounded(session: UploadSession)
    requires
        session.wf(),
    ensures
        session.statuses().len() == session.manifest().len(),
        session.manifest().len() >= 1,
        session.in_flight_count() == count_in_flight(session.statuses()),
        session.in_flight_count() <= session.limit(),
        session.limit() >= 1,
{
}

/// The byte counter of a session holds the sizes of its completed entries,
/// the progress indicator never shows more than the total, and the total is
/// the size of the manifest (each capped at `u64::MAX`).
pub proof fn law_progress_counts_completed(session: UploadSession)
    requires
        session.wf(),
    ensures
        session.uploaded() == saturated(bytes_done(session.manifest(), session.statuses())),
        session.total() == saturated(manifest_bytes(session.manifest())),
        session.position() <= session.total(),
        session.position() == session.uploaded(),
{
    lemma_bytes_bounded(session.manifest(), session.statuses());
}

/// A session with no failure, nothing in flight and everything launched has
/// uploaded every entry, and its byte counter has reached the total: this is
/// the only state in which `next_action` reports success.
pub proof fn law_success_means_all_done(session: UploadSession)
    requires
        session.wf(),
        session.failure() is None,
        session.in_flight_count() == 0,
        session.launched() == session.manifest().len(),
    ensures
        session.all_done(),
        session.uploaded() == session.total(),
{
    lemma_count_zero(session.statuses());
    assert forall|i: int| 0 <= i < session.statuses().len() implies #[trigger] session.statuses()[i] is Done by {
        let st = session.statuses()[i];
        assert(!(st is Pending));
        assert(!(st is InFlight));
        assert(!(st is Failed));
    }
    lemma_bytes_all_done(session.manifest(), session.statuses());
}

/// A session that holds a failure holds a failed entry, so that not every
/// entry is done: success and failure exclude each other.
pub proof fn law_failure_excludes_success(session: UploadSession)
    requires
        session.wf(),
        session.failure() is Some,
    ensures
        !session.all_done(),
{
    let i = choose|i: int| 0 <= i < session.statuses().len() && session.statuses()[i] is Failed;
    assert(session.statuses()[i] is Failed);
}

/// Whether a path below the source directory is made of at least one
/// component, each of them non-empty and without a slash inside.
pub open spec fn valid_relative(relative: Seq<Seq<char>>) -> bool {
    &&& relative.len() >= 1
    &&& forall|i: int|
        0 <= i < relative.len() ==> (#[trigger] relative[i]).len() >= 1 && free_of(relative[i], '/')
}

/// Under a prefix that does not end in a slash, the key of a file is the
/// prefix, a slash, and the file's components joined by slashes.
pub proof fn law_object_key_is_prefix_slash_path(prefix: Seq<char>, relative: Seq<Seq<char>>)
    requires
        valid_relative(relative),
    ensures
        prefix.len() == 0 ==> object_key(prefix, relative) == join(relative, slash()),
        prefix.len() > 0 && prefix.last() != '/' ==> object_key(prefix, relative) == prefix + slash()
            + join(relative, slash()),
{
    lemma_join_begins_with_first(relative, slash());
    let joined = join(relative, slash());
    assert(relative[0][0] != '/');
    assert(joined[0] == relative[0].subrange(0, relative[0].len() as int)[0]);
}

/// Two different paths below the source directory never get the same key.
pub proof fn law_distinct_paths_distinct_keys(
    prefix: Seq<char>,
    a: Seq<Seq<char>>,
    b: Seq<Seq<char>>,
)
    requires
        valid_relative(a),
        valid_relative(b),
        a != b,
    ensures
        object_key(prefix, a) != object_key(prefix, b),
{
    lemma_split_join(a, '/');
    lemma_split_join(b, '/');
    lemma_join_begins_with_first(a, slash());
    lemma_join_begins_with_first(b, slash());
    let ja = join(a, slash());
    let jb = join(b, slash());
    assert(ja != jb);
    assert(a[0][0] != '/');
    assert(b[0][0] != '/');
    assert(ja[0] == a[0].subrange(0, a[0].len() as int)[0]);
    assert(jb[0] == b[0].subrange(0, b[0].len() as int)[0]);
    if prefix.len() > 0 {
        let head = trim_end(prefix, '/') + slash();
        if head + ja == head + jb {
            assert((head + ja).skip(head.len() as int) =~= ja);
            assert((head + jb).skip(head.len() as int) =~= jb);
        }
    }
}

/// In the manifest of files whose paths below the source directory are valid
/// and pairwise different, no two entries share an object key, and the
/// entries' sizes add up to the files' sizes.
pub proof fn law_manifest_keys_unique(
    files: Seq<SourceFile>,
    prefix: Seq<char>,
    entries: Seq<ManifestEntry>,
)
    requires
        manifest_of(files, prefix, entries),
        forall|i: int| 0 <= i < files.len() ==> valid_relative(texts(#[trigger] files[i].relative@)),
        forall|i: int, j: int|
            0 <= i < files.len() && 0 <= j < files.len() && i != j ==> texts(
                #[trigger] files[i].relative@,
            ) != texts(#[trigger] files[j].relative@),
    ensures
        entries.len() == files.len(),
        forall|i: int, j: int|
            0 <= i < entries.len() && 0 <= j < entries.len() && i != j ==> (
            #[trigger] entries[i]).object_key@ != (#[trigger] entries[j]).object_key@,
        manifest_bytes(entries) == total_size(files),
{
    assert forall|i: int, j: int|
        0 <= i < entries.len() && 0 <= j < entries.len() && i != j implies (
    #[trigger] entries[i]).object_key@ != (#[trigger] entries[j]).object_key@ by {
        let a = texts(files[i].relative@);
        let b = texts(files[j].relative@);
        assert(entry_for(files[i], prefix, entries[i]));
        assert(entry_for(files[j], prefix, entries[j]));
        law_distinct_paths_distinct_keys(prefix, a, b);
    }
    lemma_manifest_bytes(files, prefix, entries);
}

/// The entries of a manifest hold as many bytes as the files it was built
/// from.
pub proof fn lemma_manifest_bytes(
    files: Seq<SourceFile>,
    prefix: Seq<char>,
    entries: Seq<ManifestEntry>,
)
    requires
        manifest_of(files, prefix, entries),
    ensures
        manifest_bytes(entries) == total_size(files),
    decreases files.len(),
{
    if files.len() > 0 {
        assert forall|i: int| 0 <= i < files.len() - 1 implies entry_for(
            files.drop_last()[i],
            prefix,
            #[trigger] entries.drop_last()[i],
        ) by {
            assert(entry_for(files[i], prefix, entries[i]));
        }
        lemma_manifest_bytes(files.drop_last(), prefix, entries.drop_last());
        assert(entry_for(files.last(), prefix, entries.last()));
    }
}

/// What a file transfer has just seen.
#[derive(Debug, PartialEq, Eq)]
pub enum TransferEvent {
    /// The transfer was launched.
    Started,
    /// The local file is open for reading.
    Opened,
    /// The remote writer exists.
    WriterCreated,
    /// A read returned this many bytes; zero is the end of the file.
    Read(usize),
    /// The bytes of the last read were handed to the writer.
    Written,
    /// The writer was finalized.
    Closed,
    /// A step failed.
    Failed(TransferFault),
}

/// What a file transfer does next.
#[derive(Debug, PartialEq, Eq)]
pub enum TransferStep {
    OpenFile,
    CreateWriter,
    /// Read at most this many bytes from the file.
    ReadChunk(usize),
    /// Hand the bytes just read, this many, to the writer.
    WriteChunk(usize),
    /// Finalize the writer.
    Close,
    /// The transfer is over.
    Done(Result<(), TransferFault>),
}

/// The step that follows an event in the transfer of one file: open the
/// file, create the writer, then read and write chunk by chunk until a read
/// returns nothing, then finalize. Any failure ends the transfer.
pub open spec fn step_after(event: TransferEvent) -> TransferStep {
    match event {
        TransferEvent::Started => TransferStep::OpenFile,
        TransferEvent::Opened => TransferStep::CreateWriter,
        TransferEvent::WriterCreated => TransferStep::ReadChunk(WRITE_BUFFER_SIZE),
        TransferEvent::Read(n) => if n == 0 {
            TransferStep::Close
        } else {
            TransferStep::WriteChunk(n)
        },
        TransferEvent::Written => TransferStep::ReadChunk(WRITE_BUFFER_SIZE),
        TransferEvent::Closed => TransferStep::Done(Ok(())),
        TransferEvent::Failed(fault) => TransferStep::Done(Err(fault)),
    }
}

/// The step that follows an event in the transfer of one file.
pub fn transfer_step(event: TransferEvent) -> (step: TransferStep)
    ensures
        step == step_after(event),
{
    match event {
        TransferEvent::Started => TransferStep::OpenFile,
        TransferEvent::Opened => TransferStep::CreateWriter,
        TransferEvent::WriterCreated => TransferStep::ReadChunk(WRITE_BUFFER_SIZE),
        TransferEvent::Read(n) => if n == 0 {
            TransferStep::Close
        } else {
            TransferStep::WriteChunk(n)
        },
        TransferEvent::Written => TransferStep::ReadChunk(WRITE_BUFFER_SIZE),
        TransferEvent::Closed => TransferStep::Done(Ok(())),
        TransferEvent::Failed(fault) => TransferStep::Done(Err(fault)),
    }
}

/// What the error message says about the step that failed.
pub open spec fn stage_text(stage: TransferStage) -> Seq<char> {
    match stage {
        TransferStage::OpenFile => "Failed to open "@,
        TransferStage::CreateWriter => "Failed to create writer for "@,
        TransferStage::Read => "Failed to read "@,
        TransferStage::Write => "Failed to write "@,
        TransferStage::Finalize => "Failed to finalize "@,
    }
}

/// The message of an upload error: what failed, on which file or object,
/// and the reason reported for it.
pub open spec fn upload_error_text(e: UploadError) -> Seq<char> {
    match e {
        UploadError::EmptyManifest => "No files found in the upload directory"@,
        UploadError::Scan { path, detail } => "Failed to scan "@ + path@ + ": "@ + detail@,
        UploadError::Transfer { local_path, object_key, stage, detail } => stage_text(stage) + (
        if stage is OpenFile || stage is Read {
            local_path@
        } else {
            object_key@
        }) + ": "@ + detail@,
        UploadError::Finalize { object_key, detail } => "Failed to finalize "@ + object_key@ + ": "@
            + detail@,
    }
}

impl UploadError {
    /// The message shown for this error.
    pub fn message(&self) -> (text: String)
        ensures
            text@ == upload_error_text(*self),
    {
        match self {
            UploadError::EmptyManifest => crate::text::copy_of(
                "No files found in the upload directory",
            ),
            UploadError::Scan { path, detail } => {
                let head = concat2("Failed to scan ", path.as_str());
                concat3(head.as_str(), ": ", detail.as_str())
            },
            UploadError::Transfer { local_path, object_key, stage, detail } => {
                let head = match stage {
                    TransferStage::OpenFile => concat2("Failed to open ", local_path.as_str()),
                    TransferStage::CreateWriter => concat2(
                        "Failed to create writer for ",
                        object_key.as_str(),
                    ),
                    TransferStage::Read => concat2("Failed to read ", local_path.as_str()),
                    TransferStage::Write => concat2("Failed to write ", object_key.as_str()),
                    TransferStage::Finalize => concat2("Failed to finalize ", object_key.as_str()),
                };
                concat3(head.as_str(), ": ", detail.as_str())
            },
            UploadError::Finalize { object_key, detail } => {
                let head = concat2("Failed to finalize ", object_key.as_str());
                concat3(head.as_str(), ": ", detail.as_str())
            },
        }
    }
}

/// Which unit a size is shown in: 0 for bytes, then 1 to 4 for KB, MB, GB
/// and TB, each 1024 of the one before. Nothing is shown in a unit larger
/// than TB.
pub open spec fn unit_index(bytes: u64) -> nat {
    if bytes < 1024 {
        0
    } else if bytes < 1024 * 1024 {
        1
    } else if bytes < 1024 * 1024 * 1024 {
        2
    } else if bytes < 1024 * 1024 * 1024 * 1024 {
        3
    } else {
        4
    }
}

/// The name of a unit.
pub open spec fn unit_name(index: nat) -> Seq<char> {
    if index == 0 {
        "B"@
    } else if index == 1 {
        "KB"@
    } else if index == 2 {
        "MB"@
    } else if index == 3 {
        "GB"@
    } else {
        "TB"@
    }
}

/// The unit a size is shown in, its name, and how many bytes make one of
/// it.
pub fn byte_unit(bytes: u64) -> (unit: (usize, &'static str, u64))
    ensures
        unit.0 == unit_index(bytes),
        unit.1@ == unit_name(unit.0 as nat),
        unit.2 == vstd::arithmetic::power::pow(1024, unit.0 as nat),
{
    proof {
        vstd::arithmetic::power::lemma_pow0(1024);
        vstd::arithmetic::power::lemma_pow1(1024);
        reveal_with_fuel(vstd::arithmetic::power::pow, 5);
    }
    if bytes < 1024 {
        (0, "B", 1)
    } else if bytes < 1024 * 1024 {
        (1, "KB", 1024)
    } else if bytes < 1024 * 1024 * 1024 {
        (2, "MB", 1024 * 1024)
    } else if bytes < 1024 * 1024 * 1024 * 1024 {
        (3, "GB", 1024 * 1024 * 1024)
    } else {
        (4, "TB", 1024 * 1024 * 1024 * 1024)
    }
}

/// What is said before an upload starts. The total is given as it is to be
/// shown.
pub fn upload_summary(
    files: usize,
    total: &str,
    source_dir: &str,
    bucket: &str,
    prefix: &str,
) -> (text: String)
    ensures
        text@ == "Uploading "@ + crate::text::decimal_text(files as nat) + " files ("@ + total@
            + " total) from "@ + source_dir@ + " to bucket '"@ + bucket@ + "' with prefix '"@
            + prefix@ + "'"@,
{
    let mut text = concat3("Uploading ", crate::text::decimal(files as u128).as_str(), " files (");
    text = concat3(text.as_str(), total, " total) from ");
    text = concat3(text.as_str(), source_dir, " to bucket '");
    text = concat3(text.as_str(), bucket, "' with prefix '");
    concat3(text.as_str(), prefix, "'")
}

} // verus!
