//! The synchronization engine: status check, push and pull as a session
//! that answers each completed piece of outside work with the next one.
//!
//! A session never touches the network or the disk itself. The caller
//! performs each [`SyncAction`] it hands out and reports the result as a
//! [`SyncEvent`]; the session decides what follows, until it hands out
//! `Finish` or `Fail`.

use crate::config::SyncConfig;
use crate::digest::{
    empty_fingerprint, fingerprint, fingerprint_of, lemma_fingerprint_matches_digest,
    lemma_missing_file_fingerprint, sha256_of,
};
use crate::reconcile::{
    added_records, deleted_records, keyed, reconcile, records_keyed, updated_records, ChangeCounts,
};
use crate::records::Album;
use vstd::prelude::*;

verus! {

/// What the remote side records about its snapshot: the fingerprint of the
/// stored collection file and when it was pushed.
#[derive(Debug, Clone)]
pub struct RemoteDescriptor {
    pub hash: String,
    pub last_sync: String,
}

/// The time stamp of a remote side that was never pushed to.
pub open spec fn never_synced() -> Seq<char> {
    seq!['n', 'e', 'v', 'e', 'r']
}

impl RemoteDescriptor {
    /// The descriptor that stands for a remote side not yet initialized.
    pub fn uninitialized() -> (r: RemoteDescriptor)
        ensures
            r.hash@ == empty_fingerprint(),
            r.last_sync@ == never_synced(),
    {
        proof {
            reveal_strlit("empty");
            reveal_strlit("never");
        }
        let hash = String::from_str("empty");
        let last_sync = String::from_str("never");
        assert(hash@ =~= empty_fingerprint());
        assert(last_sync@ =~= never_synced());
        RemoteDescriptor { hash, last_sync }
    }
}

/// Why a synchronization stopped.
#[derive(Debug, Clone, Copy, PartialEq, Eq, Structural)]
pub enum SyncError {
    /// The descriptor could not be read; the remote answered `status`.
    DescriptorUnreadable { status: u16 },
    /// The remote answered with success but its body is not a descriptor.
    DescriptorMalformed,
    /// The snapshot could not be downloaded; the remote answered `status`.
    BlobDownload { status: u16 },
    /// The snapshot could not be uploaded; the remote answered `status`.
    BlobUpload { status: u16 },
    /// The descriptor could not be replaced; the remote answered `status`.
    DescriptorStore { status: u16 },
    /// A push found no local collection file to upload.
    LocalStoreMissing,
    /// A record set to reconcile has a record without identity, or two
    /// records with one identity.
    UnkeyedRecords,
    /// An event came that the session was not waiting for.
    OutOfOrder,
}

/// The operation that a session carries out.
#[derive(Debug, Clone, Copy, PartialEq, Eq, Structural)]
pub enum SyncOp {
    Check { verbose: bool },
    Pull,
    Push,
}

/// How a session ended well.
#[derive(Debug, Clone)]
pub enum SyncOutcome {
    /// The endpoint or the token is not set: nothing was attempted.
    NotConfigured,
    /// The local fingerprint equals the remote one.
    InSync { last_sync: String },
    /// The fingerprints differ; `changes` holds the counts of a verbose
    /// check.
    OutOfSync { last_sync: String, changes: Option<ChangeCounts> },
    /// The local file was uploaded and the descriptor replaced.
    Pushed { fingerprint: String },
    /// The remote snapshot replaced the local file.
    Pulled { fingerprint: String },
}

/// What the caller reports back after performing an action.
#[derive(Debug)]
pub enum SyncEvent {
    /// The local collection file was read; `None` when it does not exist.
    LocalStore { contents: Option<Vec<u8>> },
    /// Whether the local collection file exists.
    LocalProbed { exists: bool },
    /// The remote answered a descriptor read with `status`; `descriptor`
    /// is its body when that parses as a descriptor.
    DescriptorFetched { status: u16, descriptor: Option<RemoteDescriptor> },
    /// The remote answered a snapshot download with `status` and `contents`.
    BlobFetched { status: u16, contents: Vec<u8> },
    /// The remote answered an upload with `status`; `now` is the current
    /// time as RFC 3339 text.
    Stored { status: u16, now: String },
    /// The local records and those of the downloaded snapshot.
    RecordsLoaded { local: Vec<Album>, remote: Vec<Album> },
    /// The local collection file was replaced; `now` is the current time as
    /// RFC 3339 text.
    Written { now: String },
    /// A local effect (backup, configuration save) completed.
    Done,
}

/// The next piece of outside work, or the end of the session.
#[derive(Debug)]
pub enum SyncAction {
    /// Read the whole local collection file, reporting whether it exists.
    ReadLocal,
    /// Report whether the local collection file exists.
    ProbeLocal,
    /// Read the descriptor at `url`.
    FetchDescriptor { url: String },
    /// Download the snapshot at `url`.
    DownloadBlob { url: String },
    /// Open the downloaded `snapshot` apart from the live store, load the
    /// records of both, and discard the snapshot copy.
    LoadRecords { snapshot: Vec<u8> },
    /// Copy the local collection file to its backup path.
    BackupLocal,
    /// Replace the local collection file with `contents`.
    WriteLocal { contents: Vec<u8> },
    /// Replace the snapshot at `url` with `contents`.
    UploadBlob { url: String, contents: Vec<u8> },
    /// Replace the descriptor at `url` with `descriptor`.
    StoreDescriptor { url: String, descriptor: RemoteDescriptor },
    /// Persist `config`.
    SaveConfig { config: SyncConfig },
    /// The session ended well.
    Finish { outcome: SyncOutcome },
    /// The session stopped on `error`.
    Fail { error: SyncError },
}

/// Where a session stands: what it waits for.
#[derive(Debug)]
pub enum Stage {
    ReadingLocal,
    FetchingDescriptor { local: String },
    FetchingSnapshot { last_sync: String },
    LoadingRecords { last_sync: String },
    ProbingLocal,
    BackingUp,
    Downloading,
    WritingLocal { fingerprint: String },
    UploadingBlob { fingerprint: String },
    StoringDescriptor { descriptor: RemoteDescriptor },
    SavingConfig { outcome: SyncOutcome },
    Finished,
}

/// A status in the success range.
pub open spec fn is_success(status: u16) -> bool {
    200 <= status < 300
}

/// A status by which the remote says that it holds no descriptor yet.
pub open spec fn is_uninitialized_status(status: u16) -> bool {
    status == 404 || status == 400
}

/// The remote fingerprint and time stamp that a descriptor read yields.
pub open spec fn remote_view(status: u16, descriptor: Option<RemoteDescriptor>) -> Result<
    (Seq<char>, Seq<char>),
    SyncError,
> {
    if is_success(status) {
        match descriptor {
            Some(d) => Ok((d.hash@, d.last_sync@)),
            None => Err(SyncError::DescriptorMalformed),
        }
    } else if is_uninitialized_status(status) {
        Ok((empty_fingerprint(), never_synced()))
    } else {
        Err(SyncError::DescriptorUnreadable { status })
    }
}

/// The verdict of a status check for local fingerprint `local`: whether it
/// is in sync, or why the check failed.
pub open spec fn check_verdict(local: Seq<char>, status: u16, descriptor: Option<RemoteDescriptor>) -> Result<bool, SyncError> {
    match remote_view(status, descriptor) {
        Ok((hash, _)) => Ok(hash == local),
        Err(e) => Err(e),
    }
}

/// The address of the snapshot under endpoint `base`.
pub open spec fn blob_url_of(base: Seq<char>) -> Seq<char> {
    base + "/albums.db"@
}

/// The address of the descriptor under endpoint `base`.
pub open spec fn descriptor_url_of(base: Seq<char>) -> Seq<char> {
    base + "/meta.json"@
}

/// The view of optional file contents.
pub open spec fn contents_view(c: Option<Vec<u8>>) -> Option<Seq<u8>> {
    match c {
        Some(b) => Some(b@),
        None => None,
    }
}

pub fn blob_url(base: &str) -> (r: String)
    ensures
        r@ == blob_url_of(base@),
{
    let r = String::from_str(base);
    r.concat("/albums.db")
}

pub fn descriptor_url(base: &str) -> (r: String)
    ensures
        r@ == descriptor_url_of(base@),
{
    let r = String::from_str(base);
    r.concat("/meta.json")
}

/// Resolves the answer to a descriptor read: a success carries the
/// descriptor, a "not found" or "bad request" stands for a remote side not
/// yet initialized, and any other status is an error.
pub fn resolve_descriptor(status: u16, descriptor: Option<RemoteDescriptor>) -> (r: Result<RemoteDescriptor, SyncError>)
    ensures
        match (r, remote_view(status, descriptor)) {
            (Ok(d), Ok((hash, last_sync))) => d.hash@ == hash && d.last_sync@ == last_sync,
            (Err(e), Err(f)) => e == f,
            _ => false,
        },
{
    if 200 <= status && status < 300 {
        match descriptor {
            Some(d) => Ok(d),
            None => Err(SyncError::DescriptorMalformed),
        }
    } else if status == 404 || status == 400 {
        Ok(RemoteDescriptor::uninitialized())
    } else {
        Err(SyncError::DescriptorUnreadable { status })
    }
}

/// A copy of an optional text.
fn copy_text(t: &Option<String>) -> (r: Option<String>)
    ensures
        r == *t,
{
    match t {
        Some(s) => Some(s.clone()),
        None => None,
    }
}

/// `config` with its last synchronization time set to `when`.
fn with_last_sync(config: &SyncConfig, when: String) -> (r: SyncConfig)
    ensures
        r.storage_url == config.storage_url,
        r.token == config.token,
        r.auto_sync == config.auto_sync,
        r.last_sync == Some(when),
{
    SyncConfig {
        storage_url: copy_text(&config.storage_url),
        token: copy_text(&config.token),
        last_sync: Some(when),
        auto_sync: config.auto_sync,
    }
}

/// A synchronization in progress.
#[derive(Debug)]
pub struct SyncSession {
    pub op: SyncOp,
    pub config: SyncConfig,
    pub stage: Stage,
}

/// The events that a session in `stage` carrying out `op` waits for.
pub open spec fn expects(stage: Stage, op: SyncOp, event: SyncEvent) -> bool {
    match (stage, event) {
        (Stage::ReadingLocal, SyncEvent::LocalStore { .. }) => op !is Pull,
        (Stage::FetchingDescriptor { .. }, SyncEvent::DescriptorFetched { .. }) => true,
        (Stage::FetchingSnapshot { .. }, SyncEvent::BlobFetched { .. }) => true,
        (Stage::LoadingRecords { .. }, SyncEvent::RecordsLoaded { .. }) => true,
        (Stage::ProbingLocal, SyncEvent::LocalProbed { .. }) => true,
        (Stage::BackingUp, SyncEvent::Done) => true,
        (Stage::Downloading, SyncEvent::BlobFetched { .. }) => true,
        (Stage::WritingLocal { .. }, SyncEvent::Written { .. }) => true,
        (Stage::UploadingBlob { .. }, SyncEvent::Stored { .. }) => true,
        (Stage::StoringDescriptor { .. }, SyncEvent::Stored { .. }) => true,
        (Stage::SavingConfig { .. }, SyncEvent::Done) => true,
        _ => false,
    }
}

/// An unconfigured session, or one given an event it does not wait for,
/// fails.
pub open spec fn out_of_order_fails(o: SyncSession, event: SyncEvent, f: SyncSession, action: SyncAction) -> bool {
    !o.config.configured() || !expects(o.stage, o.op, event) ==> {
        action == (SyncAction::Fail { error: SyncError::OutOfOrder }) && f.stage is Finished
    }
}

/// A status check that read the local file fetches the descriptor and
/// keeps the local fingerprint.
pub open spec fn after_check_read(o: SyncSession, event: SyncEvent, f: SyncSession, action: SyncAction) -> bool {
    o.config.configured() && o.op is Check ==> match (o.stage, event) {
        (Stage::ReadingLocal, SyncEvent::LocalStore { contents }) => {
            &&& action matches SyncAction::FetchDescriptor { url }
            &&& url@ == descriptor_url_of(o.base())
            &&& f.stage matches Stage::FetchingDescriptor { local }
            &&& local@ == fingerprint_of(contents_view(contents))
        },
        _ => true,
    }
}

/// A push that read the local file uploads it and keeps its fingerprint;
/// without a local file it fails.
pub open spec fn after_push_read(o: SyncSession, event: SyncEvent, f: SyncSession, action: SyncAction) -> bool {
    o.config.configured() && o.op is Push ==> match (o.stage, event) {
        (Stage::ReadingLocal, SyncEvent::LocalStore { contents: Some(b) }) => {
            &&& action matches SyncAction::UploadBlob { url, contents }
            &&& url@ == blob_url_of(o.base())
            &&& contents@ == b@
            &&& f.stage matches Stage::UploadingBlob { fingerprint }
            &&& fingerprint@ == fingerprint_of(Some(b@))
        },
        (Stage::ReadingLocal, SyncEvent::LocalStore { contents: None }) => {
            &&& action == (SyncAction::Fail { error: SyncError::LocalStoreMissing })
            &&& f.stage is Finished
        },
        _ => true,
    }
}

/// A status check that read the descriptor reports in sync exactly when
/// the fingerprints are equal; a verbose check of differing fingerprints
/// goes on to download the snapshot.
pub open spec fn after_descriptor(o: SyncSession, event: SyncEvent, f: SyncSession, action: SyncAction) -> bool {
    o.config.configured() ==> match (o.stage, event) {
        (Stage::FetchingDescriptor { local }, SyncEvent::DescriptorFetched { status, descriptor }) => {
            &&& (action matches SyncAction::Finish { outcome: SyncOutcome::InSync { .. } })
                == (check_verdict(local@, status, descriptor) == Ok::<bool, SyncError>(true))
            &&& match remote_view(status, descriptor) {
                Err(e) => action == (SyncAction::Fail { error: e }) && f.stage is Finished,
                Ok((hash, when)) => if hash == local@ {
                    &&& action matches SyncAction::Finish { outcome: SyncOutcome::InSync { last_sync } }
                    &&& last_sync@ == when
                    &&& f.stage is Finished
                } else if o.op == (SyncOp::Check { verbose: true }) {
                    &&& action matches SyncAction::DownloadBlob { url }
                    &&& url@ == blob_url_of(o.base())
                    &&& f.stage matches Stage::FetchingSnapshot { last_sync }
                    &&& last_sync@ == when
                } else {
                    &&& action matches SyncAction::Finish { outcome: SyncOutcome::OutOfSync { last_sync, changes } }
                    &&& last_sync@ == when
                    &&& changes is None
                    &&& f.stage is Finished
                },
            }
        },
        _ => true,
    }
}

/// A verbose check that downloaded the snapshot loads the records of both
/// sides.
pub open spec fn after_snapshot(o: SyncSession, event: SyncEvent, f: SyncSession, action: SyncAction) -> bool {
    o.config.configured() ==> match (o.stage, event) {
        (Stage::FetchingSnapshot { last_sync }, SyncEvent::BlobFetched { status, contents }) => if is_success(status) {
            &&& action matches SyncAction::LoadRecords { snapshot }
            &&& snapshot@ == contents@
            &&& f.stage matches Stage::LoadingRecords { last_sync: kept }
            &&& kept@ == last_sync@
        } else {
            action == (SyncAction::Fail { error: SyncError::BlobDownload { status } }) && f.stage is Finished
        },
        _ => true,
    }
}

/// A verbose check that loaded both record sets reports how a pull would
/// change the local records.
pub open spec fn after_records(o: SyncSession, event: SyncEvent, f: SyncSession, action: SyncAction) -> bool {
    o.config.configured() ==> match (o.stage, event) {
        (Stage::LoadingRecords { last_sync }, SyncEvent::RecordsLoaded { local, remote }) => if keyed(local@)
            && keyed(remote@) {
            &&& action matches SyncAction::Finish { outcome: SyncOutcome::OutOfSync { last_sync: kept, changes: Some(c) } }
            &&& kept@ == last_sync@
            &&& c.added == added_records(local@, remote@).len()
            &&& c.deleted == deleted_records(local@, remote@).len()
            &&& c.updated == updated_records(local@, remote@).len()
            &&& f.stage is Finished
        } else {
            action == (SyncAction::Fail { error: SyncError::UnkeyedRecords }) && f.stage is Finished
        },
        _ => true,
    }
}

/// A pull backs the local file up exactly when it exists, and downloads
/// the snapshot otherwise.
pub open spec fn after_probe(o: SyncSession, event: SyncEvent, f: SyncSession, action: SyncAction) -> bool {
    o.config.configured() ==> match (o.stage, event) {
        (Stage::ProbingLocal, SyncEvent::LocalProbed { exists }) => if exists {
            action is BackupLocal && f.stage is BackingUp
        } else {
            &&& action matches SyncAction::DownloadBlob { url }
            &&& url@ == blob_url_of(o.base())
            &&& f.stage is Downloading
        },
        _ => true,
    }
}

/// A pull that backed the local file up downloads the snapshot.
pub open spec fn after_backup(o: SyncSession, event: SyncEvent, f: SyncSession, action: SyncAction) -> bool {
    o.config.configured() ==> match (o.stage, event) {
        (Stage::BackingUp, SyncEvent::Done) => {
            &&& action matches SyncAction::DownloadBlob { url }
            &&& url@ == blob_url_of(o.base())
            &&& f.stage is Downloading
        },
        _ => true,
    }
}

/// A pull that downloaded the snapshot replaces the local file with it.
pub open spec fn after_download(o: SyncSession, event: SyncEvent, f: SyncSession, action: SyncAction) -> bool {
    o.config.configured() ==> match (o.stage, event) {
        (Stage::Downloading, SyncEvent::BlobFetched { status, contents }) => if is_success(status) {
            &&& action matches SyncAction::WriteLocal { contents: written }
            &&& written@ == contents@
            &&& f.stage matches Stage::WritingLocal { fingerprint }
            &&& fingerprint@ == fingerprint_of(Some(contents@))
        } else {
            action == (SyncAction::Fail { error: SyncError::BlobDownload { status } }) && f.stage is Finished
        },
        _ => true,
    }
}

/// The configuration to save after a synchronization at `when`: `o`'s,
/// with its time of synchronization set to `when`.
pub open spec fn saves_with_time(o: SyncConfig, c: SyncConfig, when: Seq<char>) -> bool {
    &&& c.storage_url == o.storage_url
    &&& c.token == o.token
    &&& c.auto_sync == o.auto_sync
    &&& c.last_sync matches Some(t) && t@ == when
}

/// A pull that replaced the local file records the time of
/// synchronization, and will end with the new file's fingerprint.
pub open spec fn after_write(o: SyncSession, event: SyncEvent, f: SyncSession, action: SyncAction) -> bool {
    o.config.configured() ==> match (o.stage, event) {
        (Stage::WritingLocal { fingerprint }, SyncEvent::Written { now }) => {
            &&& action matches SyncAction::SaveConfig { config }
            &&& saves_with_time(o.config, config, now@)
            &&& f.stage matches Stage::SavingConfig { outcome: SyncOutcome::Pulled { fingerprint: kept } }
            &&& kept == fingerprint
        },
        _ => true,
    }
}

/// A push whose upload succeeded replaces the descriptor with one that
/// holds the uploaded file's fingerprint and the time of the upload.
pub open spec fn after_upload(o: SyncSession, event: SyncEvent, f: SyncSession, action: SyncAction) -> bool {
    o.config.configured() ==> match (o.stage, event) {
        (Stage::UploadingBlob { fingerprint }, SyncEvent::Stored { status, now }) => if is_success(status) {
            &&& action matches SyncAction::StoreDescriptor { url, descriptor }
            &&& url@ == descriptor_url_of(o.base())
            &&& descriptor.hash@ == fingerprint@
            &&& descriptor.last_sync@ == now@
            &&& f.stage == (Stage::StoringDescriptor { descriptor })
        } else {
            action == (SyncAction::Fail { error: SyncError::BlobUpload { status } }) && f.stage is Finished
        },
        _ => true,
    }
}

/// A push that replaced the descriptor records the descriptor's time of
/// synchronization, and will end with its fingerprint.
pub open spec fn after_descriptor_stored(o: SyncSession, event: SyncEvent, f: SyncSession, action: SyncAction) -> bool {
    o.config.configured() ==> match (o.stage, event) {
        (Stage::StoringDescriptor { descriptor }, SyncEvent::Stored { status, .. }) => if is_success(status) {
            &&& action matches SyncAction::SaveConfig { config }
            &&& saves_with_time(o.config, config, descriptor.last_sync@)
            &&& config.last_sync == Some(descriptor.last_sync)
            &&& f.stage == (Stage::SavingConfig { outcome: SyncOutcome::Pushed { fingerprint: descriptor.hash } })
        } else {
            action == (SyncAction::Fail { error: SyncError::DescriptorStore { status } }) && f.stage is Finished
        },
        _ => true,
    }
}

/// Once the configuration is saved the session ends with the outcome it
/// kept.
pub open spec fn after_save(o: SyncSession, event: SyncEvent, f: SyncSession, action: SyncAction) -> bool {
    o.config.configured() ==> match (o.stage, event) {
        (Stage::SavingConfig { outcome }, SyncEvent::Done) => {
            action == (SyncAction::Finish { outcome }) && f.stage is Finished
        },
        _ => true,
    }
}

/// A backup is asked for only by a pull that found a local file.
pub open spec fn backup_only_after_probe(o: SyncSession, event: SyncEvent, f: SyncSession, action: SyncAction) -> bool {
    action is BackupLocal ==> o.stage is ProbingLocal && event == (SyncEvent::LocalProbed { exists: true })
}

impl SyncSession {
    /// The configured endpoint.
    pub open spec fn base(self) -> Seq<char> {
        self.config.storage_url->0@
    }

    /// Starts `op` under `config`. Without an endpoint and a token nothing
    /// is attempted: the session ends at once. Otherwise a pull first asks
    /// whether the local file exists, and a check or a push reads it.
    pub fn new(op: SyncOp, config: SyncConfig) -> (r: (SyncSession, SyncAction))
        ensures
            r.0.op == op,
            r.0.config == config,
            !config.configured() ==> (r.1 matches SyncAction::Finish { outcome: SyncOutcome::NotConfigured })
                && r.0.stage is Finished,
            config.configured() && op is Pull ==> r.1 is ProbeLocal && r.0.stage is ProbingLocal,
            config.configured() && op !is Pull ==> r.1 is ReadLocal && r.0.stage is ReadingLocal,
    {
        if !config.is_configured() {
            (
                SyncSession { op, config, stage: Stage::Finished },
                SyncAction::Finish { outcome: SyncOutcome::NotConfigured },
            )
        } else {
            match op {
                SyncOp::Pull => (SyncSession { op, config, stage: Stage::ProbingLocal }, SyncAction::ProbeLocal),
                _ => (SyncSession { op, config, stage: Stage::ReadingLocal }, SyncAction::ReadLocal),
            }
        }
    }

    /// Ends the session on `error`.
    fn fail(&mut self, error: SyncError) -> (action: SyncAction)
        ensures
            final(self).op == old(self).op,
            final(self).config == old(self).config,
            final(self).stage is Finished,
            action == (SyncAction::Fail { error }),
    {
        self.stage = Stage::Finished;
        SyncAction::Fail { error }
    }

    /// Takes the result of the last action and hands out the next one.
    pub fn step(&mut self, event: SyncEvent) -> (action: SyncAction)
        ensures
            final(self).op == old(self).op,
            final(self).config == old(self).config,
            out_of_order_fails(*old(self), event, *final(self), action),
            after_check_read(*old(self), event, *final(self), action),
            after_push_read(*old(self), event, *final(self), action),
            after_descriptor(*old(self), event, *final(self), action),
            after_snapshot(*old(self), event, *final(self), action),
            after_records(*old(self), event, *final(self), action),
            after_probe(*old(self), event, *final(self), action),
            after_backup(*old(self), event, *final(self), action),
            after_download(*old(self), event, *final(self), action),
            after_write(*old(self), event, *final(self), action),
            after_upload(*old(self), event, *final(self), action),
            after_descriptor_stored(*old(self), event, *final(self), action),
            after_save(*old(self), event, *final(self), action),
            backup_only_after_probe(*old(self), event, *final(self), action),
    {
        let mut stage = Stage::Finished;
        std::mem::swap(&mut self.stage, &mut stage);
        let base: &str = match &self.config.storage_url {
            Some(u) => u.as_str(),
            None => {
                return self.fail(SyncError::OutOfOrder);
            },
        };
        if self.config.token.is_none() {
            return self.fail(SyncError::OutOfOrder);
        }
        match (stage, event) {
            (Stage::ReadingLocal, SyncEvent::LocalStore { contents }) => {
                match self.op {
                    SyncOp::Check { .. } => {
                        let local = match &contents {
                            Some(b) => fingerprint(Some(b.as_slice())),
                            None => fingerprint(None),
                        };
                        self.stage = Stage::FetchingDescriptor { local };
                        SyncAction::FetchDescriptor { url: descriptor_url(base) }
                    },
                    SyncOp::Push => match contents {
                        Some(b) => {
                            let fp = fingerprint(Some(b.as_slice()));
                            self.stage = Stage::UploadingBlob { fingerprint: fp };
                            SyncAction::UploadBlob { url: blob_url(base), contents: b }
                        },
                        None => self.fail(SyncError::LocalStoreMissing),
                    },
                    SyncOp::Pull => self.fail(SyncError::OutOfOrder),
                }
            },
            (Stage::FetchingDescriptor { local }, SyncEvent::DescriptorFetched { status, descriptor }) => {
                match resolve_descriptor(status, descriptor) {
                    Err(e) => self.fail(e),
                    Ok(d) => {
                        if d.hash == local {
                            SyncAction::Finish { outcome: SyncOutcome::InSync { last_sync: d.last_sync } }
                        } else {
                            match self.op {
                                SyncOp::Check { verbose: true } => {
                                    self.stage = Stage::FetchingSnapshot { last_sync: d.last_sync };
                                    SyncAction::DownloadBlob { url: blob_url(base) }
                                },
                                _ => SyncAction::Finish {
                                    outcome: SyncOutcome::OutOfSync { last_sync: d.last_sync, changes: None },
                                },
                            }
                        }
                    },
                }
            },
            (Stage::FetchingSnapshot { last_sync }, SyncEvent::BlobFetched { status, contents }) => {
                if 200 <= status && status < 300 {
                    self.stage = Stage::LoadingRecords { last_sync };
                    SyncAction::LoadRecords { snapshot: contents }
                } else {
                    self.fail(SyncError::BlobDownload { status })
                }
            },
            (Stage::LoadingRecords { last_sync }, SyncEvent::RecordsLoaded { local, remote }) => {
                if records_keyed(&local) && records_keyed(&remote) {
                    let changes = reconcile(&local, &remote);
                    SyncAction::Finish { outcome: SyncOutcome::OutOfSync { last_sync, changes: Some(changes) } }
                } else {
                    self.fail(SyncError::UnkeyedRecords)
                }
            },
            (Stage::ProbingLocal, SyncEvent::LocalProbed { exists }) => {
                if exists {
                    self.stage = Stage::BackingUp;
                    SyncAction::BackupLocal
                } else {
                    self.stage = Stage::Downloading;
                    SyncAction::DownloadBlob { url: blob_url(base) }
                }
            },
            (Stage::BackingUp, SyncEvent::Done) => {
                self.stage = Stage::Downloading;
                SyncAction::DownloadBlob { url: blob_url(base) }
            },
            (Stage::Downloading, SyncEvent::BlobFetched { status, contents }) => {
                if 200 <= status && status < 300 {
                    let fp = fingerprint(Some(contents.as_slice()));
                    self.stage = Stage::WritingLocal { fingerprint: fp };
                    SyncAction::WriteLocal { contents }
                } else {
                    self.fail(SyncError::BlobDownload { status })
                }
            },
            (Stage::WritingLocal { fingerprint }, SyncEvent::Written { now }) => {
                let config = with_last_sync(&self.config, now);
                self.stage = Stage::SavingConfig { outcome: SyncOutcome::Pulled { fingerprint } };
                SyncAction::SaveConfig { config }
            },
            (Stage::UploadingBlob { fingerprint }, SyncEvent::Stored { status, now }) => {
                if 200 <= status && status < 300 {
                    let last_sync = now;
                    let kept = RemoteDescriptor { hash: fingerprint.clone(), last_sync: last_sync.clone() };
                    let descriptor = RemoteDescriptor { hash: fingerprint, last_sync };
                    self.stage = Stage::StoringDescriptor { descriptor: kept };
                    SyncAction::StoreDescriptor { url: descriptor_url(base), descriptor }
                } else {
                    self.fail(SyncError::BlobUpload { status })
                }
            },
            (Stage::StoringDescriptor { descriptor }, SyncEvent::Stored { status, .. }) => {
                if 200 <= status && status < 300 {
                    let config = with_last_sync(&self.config, descriptor.last_sync);
                    self.stage = Stage::SavingConfig { outcome: SyncOutcome::Pushed { fingerprint: descriptor.hash } };
                    SyncAction::SaveConfig { config }
                } else {
                    self.fail(SyncError::DescriptorStore { status })
                }
            },
            (Stage::SavingConfig { outcome }, SyncEvent::Done) => SyncAction::Finish { outcome },
            _ => self.fail(SyncError::OutOfOrder),
        }
    }
}

/// A status check reports "in sync" exactly when the local fingerprint
/// equals the one the remote descriptor holds.
pub proof fn lemma_in_sync_iff_fingerprints_equal(local: Seq<char>, status: u16, descriptor: Option<RemoteDescriptor>)
    requires
        remote_view(status, descriptor) is Ok,
    ensures
        check_verdict(local, status, descriptor) == Ok::<bool, SyncError>(remote_view(status, descriptor)->Ok_0.0 == local),
{
}

/// Local and remote files whose digests differ are never found in sync,
/// when the descriptor holds the remote file's fingerprint.
pub proof fn lemma_differing_contents_out_of_sync(
    local: Seq<u8>,
    remote: Seq<u8>,
    status: u16,
    descriptor: RemoteDescriptor,
)
    requires
        is_success(status),
        descriptor.hash@ == fingerprint_of(Some(remote)),
        sha256_of(local) != sha256_of(remote),
    ensures
        check_verdict(fingerprint_of(Some(local)), status, Some(descriptor)) == Ok::<bool, SyncError>(false),
{
    lemma_fingerprint_matches_digest(local, remote);
}

/// The bytes that a local-file event reports, if any.
pub open spec fn read_bytes(event: SyncEvent) -> Option<Seq<u8>> {
    match event {
        SyncEvent::LocalStore { contents } => contents_view(contents),
        _ => None,
    }
}

/// The descriptor that an action stores, if it stores one.
pub open spec fn stored_descriptor(action: SyncAction) -> Option<RemoteDescriptor> {
    match action {
        SyncAction::StoreDescriptor { descriptor, .. } => Some(descriptor),
        _ => None,
    }
}

/// A configured push that read `read` and had its upload answered with
/// `uploaded`, stepping through `s0`, `s1`, `s2`.
pub open spec fn push_run(
    s0: SyncSession,
    read: SyncEvent,
    s1: SyncSession,
    upload: SyncAction,
    uploaded: SyncEvent,
    s2: SyncSession,
    store: SyncAction,
) -> bool {
    &&& s0.config.configured()
    &&& s0.op == SyncOp::Push
    &&& s0.stage is ReadingLocal
    &&& after_push_read(s0, read, s1, upload)
    &&& s1.op == s0.op
    &&& s1.config == s0.config
    &&& after_upload(s1, uploaded, s2, store)
}

/// A configured status check that read `read` and got `answer` to its
/// descriptor read, stepping through `s0`, `s1`, `s2`.
pub open spec fn check_run(
    s0: SyncSession,
    read: SyncEvent,
    s1: SyncSession,
    fetch: SyncAction,
    answer: SyncEvent,
    s2: SyncSession,
    verdict: SyncAction,
) -> bool {
    &&& s0.config.configured()
    &&& s0.op is Check
    &&& s0.stage is ReadingLocal
    &&& after_check_read(s0, read, s1, fetch)
    &&& s1.op == s0.op
    &&& s1.config == s0.config
    &&& after_descriptor(s1, answer, s2, verdict)
}

/// A push of the local bytes whose uploads succeed, followed by a status
/// check that reads the same bytes and gets back the descriptor the push
/// stored, reports the two sides in sync.
pub proof fn lemma_push_then_check_in_sync(
    p0: SyncSession,
    p_read: SyncEvent,
    p1: SyncSession,
    upload: SyncAction,
    uploaded: SyncEvent,
    p2: SyncSession,
    store: SyncAction,
    c0: SyncSession,
    c_read: SyncEvent,
    c1: SyncSession,
    fetch: SyncAction,
    c2: SyncSession,
    verdict: SyncAction,
    status: u16,
)
    requires
        push_run(p0, p_read, p1, upload, uploaded, p2, store),
        read_bytes(p_read) is Some,
        uploaded is Stored && is_success(uploaded->Stored_status),
        check_run(
            c0,
            c_read,
            c1,
            fetch,
            SyncEvent::DescriptorFetched { status, descriptor: stored_descriptor(store) },
            c2,
            verdict,
        ),
        read_bytes(c_read) == read_bytes(p_read),
        is_success(status),
    ensures
        verdict matches SyncAction::Finish { outcome: SyncOutcome::InSync { .. } },
{
}

/// Two pushes of the same local bytes whose uploads succeed store
/// descriptors with the same fingerprint, whatever their times.
pub proof fn lemma_push_twice_same_fingerprint(
    a0: SyncSession,
    a_read: SyncEvent,
    a1: SyncSession,
    a_upload: SyncAction,
    a_uploaded: SyncEvent,
    a2: SyncSession,
    a_store: SyncAction,
    b0: SyncSession,
    b_read: SyncEvent,
    b1: SyncSession,
    b_upload: SyncAction,
    b_uploaded: SyncEvent,
    b2: SyncSession,
    b_store: SyncAction,
)
    requires
        push_run(a0, a_read, a1, a_upload, a_uploaded, a2, a_store),
        push_run(b0, b_read, b1, b_upload, b_uploaded, b2, b_store),
        read_bytes(a_read) is Some,
        read_bytes(b_read) == read_bytes(a_read),
        a_uploaded is Stored && is_success(a_uploaded->Stored_status),
        b_uploaded is Stored && is_success(b_uploaded->Stored_status),
    ensures
        stored_descriptor(a_store) is Some,
        stored_descriptor(b_store) is Some,
        stored_descriptor(a_store)->0.hash@ == stored_descriptor(b_store)->0.hash@,
        stored_descriptor(a_store)->0.hash@ == fingerprint_of(read_bytes(a_read)),
{
}

/// A remote side that answers "not found" or "bad request" stands for the
/// `empty` fingerprint and the `never` time, and any existing local file is
/// out of sync with it.
pub proof fn lemma_uninitialized_remote_out_of_sync(contents: Seq<u8>, status: u16, descriptor: Option<RemoteDescriptor>)
    requires
        is_uninitialized_status(status),
    ensures
        remote_view(status, descriptor) == Ok::<(Seq<char>, Seq<char>), SyncError>((empty_fingerprint(), never_synced())),
        check_verdict(fingerprint_of(Some(contents)), status, descriptor) == Ok::<bool, SyncError>(false),
{
    lemma_missing_file_fingerprint(contents);
}

} // verus!
