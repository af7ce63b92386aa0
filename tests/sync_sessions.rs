use gnedby::config::SyncConfig;
use gnedby::digest::fingerprint;
use gnedby::records::{Album, Format};
use gnedby::reconcile::{reconcile, records_keyed, ChangeCounts};
use gnedby::sync::{
    blob_url, descriptor_url, resolve_descriptor, RemoteDescriptor, Stage, SyncAction, SyncError,
    SyncEvent, SyncOp, SyncOutcome, SyncSession,
};

const BASE: &str = "https://storage.example.com/bucket";
const NOW: &str = "2024-05-01T12:00:00+00:00";
const LATER: &str = "2024-05-01T12:00:05+00:00";

fn configured() -> SyncConfig {
    SyncConfig {
        storage_url: Some(BASE.to_string()),
        token: Some("secret".to_string()),
        last_sync: None,
        auto_sync: false,
    }
}

fn album(id: i64, title: &str) -> Album {
    Album {
        id: Some(id),
        artist: "Artist".to_string(),
        album: title.to_string(),
        genre: "Rock".to_string(),
        release_date: "2001-01-01".to_string(),
        format: Format::Cd,
        source_url: String::new(),
        country: "USA".to_string(),
        artwork_url: String::new(),
    }
}

/// Runs a push of `local` against a remote that accepts every upload, and
/// returns the descriptor it stored.
fn push(local: &[u8]) -> RemoteDescriptor {
    let (mut s, first) = SyncSession::new(SyncOp::Push, configured());
    assert!(matches!(first, SyncAction::ReadLocal));
    let a = s.step(SyncEvent::LocalStore { contents: Some(local.to_vec()) });
    match a {
        SyncAction::UploadBlob { url, contents } => {
            assert_eq!(url, format!("{}/albums.db", BASE));
            assert_eq!(contents, local.to_vec());
        }
        other => panic!("unexpected {:?}", other),
    }
    let stored = match s.step(SyncEvent::Stored { status: 200, now: NOW.to_string() }) {
        SyncAction::StoreDescriptor { url, descriptor } => {
            assert_eq!(url, format!("{}/meta.json", BASE));
            descriptor
        }
        other => panic!("unexpected {:?}", other),
    };
    match s.step(SyncEvent::Stored { status: 201, now: LATER.to_string() }) {
        SyncAction::SaveConfig { config } => {
            assert_eq!(config.last_sync, Some(stored.last_sync.clone()));
            assert_eq!(stored.last_sync, NOW);
            assert_eq!(config.storage_url, Some(BASE.to_string()));
        }
        other => panic!("unexpected {:?}", other),
    }
    match s.step(SyncEvent::Done) {
        SyncAction::Finish { outcome: SyncOutcome::Pushed { fingerprint: f } } => assert_eq!(f, stored.hash),
        other => panic!("unexpected {:?}", other),
    }
    stored
}

/// Runs a check of `local` against a remote that answers the descriptor
/// read with `status` and `descriptor`.
fn check(local: Option<&[u8]>, status: u16, descriptor: Option<RemoteDescriptor>) -> SyncAction {
    let (mut s, first) = SyncSession::new(SyncOp::Check { verbose: false }, configured());
    assert!(matches!(first, SyncAction::ReadLocal));
    match s.step(SyncEvent::LocalStore { contents: local.map(|b| b.to_vec()) }) {
        SyncAction::FetchDescriptor { url } => assert_eq!(url, format!("{}/meta.json", BASE)),
        other => panic!("unexpected {:?}", other),
    }
    s.step(SyncEvent::DescriptorFetched { status, descriptor })
}

#[test]
fn urls_under_endpoint() {
    assert_eq!(blob_url("https://x/y"), "https://x/y/albums.db");
    assert_eq!(descriptor_url("https://x/y"), "https://x/y/meta.json");
}

#[test]
fn unconfigured_push_does_nothing() {
    let (s, action) = SyncSession::new(SyncOp::Push, SyncConfig::default());
    assert!(matches!(action, SyncAction::Finish { outcome: SyncOutcome::NotConfigured }));
    assert!(matches!(s.stage, Stage::Finished));
    let mut half = configured();
    half.token = None;
    let (_, action) = SyncSession::new(SyncOp::Pull, half);
    assert!(matches!(action, SyncAction::Finish { outcome: SyncOutcome::NotConfigured }));
}

#[test]
fn push_stores_local_fingerprint() {
    let local = b"collection bytes".to_vec();
    let d = push(&local);
    assert_eq!(d.hash, fingerprint(Some(&local)));
}

#[test]
fn push_then_check_is_in_sync() {
    let local = b"collection bytes".to_vec();
    let d = push(&local);
    let when = d.last_sync.clone();
    match check(Some(&local), 200, Some(d)) {
        SyncAction::Finish { outcome: SyncOutcome::InSync { last_sync } } => assert_eq!(last_sync, when),
        other => panic!("unexpected {:?}", other),
    }
}

#[test]
fn pushing_twice_stores_same_fingerprint() {
    let local = b"unchanged".to_vec();
    assert_eq!(push(&local).hash, push(&local).hash);
}

#[test]
fn differing_contents_are_out_of_sync() {
    let remote = push(b"remote bytes");
    match check(Some(b"local bytes"), 200, Some(remote)) {
        SyncAction::Finish { outcome: SyncOutcome::OutOfSync { changes: None, .. } } => {}
        other => panic!("unexpected {:?}", other),
    }
}

#[test]
fn uninitialized_remote_is_empty_and_never() {
    let d = resolve_descriptor(404, None).unwrap();
    assert_eq!(d.hash, "empty");
    assert_eq!(d.last_sync, "never");
    let d = resolve_descriptor(400, None).unwrap();
    assert_eq!(d.hash, "empty");
    match check(Some(b"some albums"), 404, None) {
        SyncAction::Finish { outcome: SyncOutcome::OutOfSync { last_sync, changes: None } } => {
            assert_eq!(last_sync, "never")
        }
        other => panic!("unexpected {:?}", other),
    }
}

#[test]
fn missing_local_and_uninitialized_remote_agree() {
    match check(None, 404, None) {
        SyncAction::Finish { outcome: SyncOutcome::InSync { .. } } => {}
        other => panic!("unexpected {:?}", other),
    }
}

#[test]
fn descriptor_errors() {
    assert_eq!(resolve_descriptor(500, None).unwrap_err(), SyncError::DescriptorUnreadable { status: 500 });
    assert_eq!(resolve_descriptor(200, None).unwrap_err(), SyncError::DescriptorMalformed);
    match check(Some(b"x"), 403, None) {
        SyncAction::Fail { error } => assert_eq!(error, SyncError::DescriptorUnreadable { status: 403 }),
        other => panic!("unexpected {:?}", other),
    }
}

#[test]
fn push_without_local_file_fails() {
    let (mut s, _) = SyncSession::new(SyncOp::Push, configured());
    match s.step(SyncEvent::LocalStore { contents: None }) {
        SyncAction::Fail { error } => assert_eq!(error, SyncError::LocalStoreMissing),
        other => panic!("unexpected {:?}", other),
    }
}

#[test]
fn push_upload_failures() {
    let (mut s, _) = SyncSession::new(SyncOp::Push, configured());
    s.step(SyncEvent::LocalStore { contents: Some(vec![1, 2]) });
    match s.step(SyncEvent::Stored { status: 500, now: NOW.to_string() }) {
        SyncAction::Fail { error } => assert_eq!(error, SyncError::BlobUpload { status: 500 }),
        other => panic!("unexpected {:?}", other),
    }
    let (mut s, _) = SyncSession::new(SyncOp::Push, configured());
    s.step(SyncEvent::LocalStore { contents: Some(vec![1, 2]) });
    s.step(SyncEvent::Stored { status: 200, now: NOW.to_string() });
    match s.step(SyncEvent::Stored { status: 401, now: LATER.to_string() }) {
        SyncAction::Fail { error } => assert_eq!(error, SyncError::DescriptorStore { status: 401 }),
        other => panic!("unexpected {:?}", other),
    }
}

fn pull(exists: bool) -> Vec<&'static str> {
    let mut seen = Vec::new();
    let (mut s, first) = SyncSession::new(SyncOp::Pull, configured());
    assert!(matches!(first, SyncAction::ProbeLocal));
    let mut action = s.step(SyncEvent::LocalProbed { exists });
    loop {
        action = match action {
            SyncAction::BackupLocal => {
                seen.push("backup");
                s.step(SyncEvent::Done)
            }
            SyncAction::DownloadBlob { url } => {
                assert_eq!(url, format!("{}/albums.db", BASE));
                seen.push("download");
                s.step(SyncEvent::BlobFetched { status: 200, contents: b"remote".to_vec() })
            }
            SyncAction::WriteLocal { contents } => {
                assert_eq!(contents, b"remote".to_vec());
                seen.push("write");
                s.step(SyncEvent::Written { now: NOW.to_string() })
            }
            SyncAction::SaveConfig { config } => {
                assert_eq!(config.last_sync, Some(NOW.to_string()));
                seen.push("save");
                s.step(SyncEvent::Done)
            }
            SyncAction::Finish { outcome: SyncOutcome::Pulled { fingerprint: f } } => {
                assert_eq!(f, fingerprint(Some(b"remote")));
                seen.push("pulled");
                return seen;
            }
            other => panic!("unexpected {:?}", other),
        };
    }
}

#[test]
fn pull_backs_up_existing_local_file() {
    assert_eq!(pull(true), vec!["backup", "download", "write", "save", "pulled"]);
}

#[test]
fn pull_without_local_file_makes_no_backup() {
    assert_eq!(pull(false), vec!["download", "write", "save", "pulled"]);
}

#[test]
fn pull_download_failure() {
    let (mut s, _) = SyncSession::new(SyncOp::Pull, configured());
    s.step(SyncEvent::LocalProbed { exists: false });
    match s.step(SyncEvent::BlobFetched { status: 404, contents: vec![] }) {
        SyncAction::Fail { error } => assert_eq!(error, SyncError::BlobDownload { status: 404 }),
        other => panic!("unexpected {:?}", other),
    }
}

#[test]
fn event_out_of_order_fails() {
    let (mut s, _) = SyncSession::new(SyncOp::Push, configured());
    match s.step(SyncEvent::Done) {
        SyncAction::Fail { error } => assert_eq!(error, SyncError::OutOfOrder),
        other => panic!("unexpected {:?}", other),
    }
    assert!(matches!(s.stage, Stage::Finished));
}

#[test]
fn reconcile_counts_added_deleted_updated() {
    let local = vec![album(1, "A"), album(2, "B")];
    let remote = vec![album(2, "B prime"), album(3, "C")];
    assert_eq!(reconcile(&local, &remote), ChangeCounts { added: 1, deleted: 1, updated: 1 });
}

#[test]
fn reconcile_identical_sets() {
    let local = vec![album(1, "A"), album(2, "B")];
    assert_eq!(reconcile(&local, &local.clone()), ChangeCounts { added: 0, deleted: 0, updated: 0 });
    assert_eq!(reconcile(&vec![], &local), ChangeCounts { added: 2, deleted: 0, updated: 0 });
}

#[test]
fn records_keyed_needs_distinct_identities() {
    assert!(records_keyed(&vec![album(1, "A"), album(2, "B")]));
    assert!(!records_keyed(&vec![album(1, "A"), album(1, "B")]));
    let mut no_id = album(4, "D");
    no_id.id = None;
    assert!(!records_keyed(&vec![no_id]));
}

#[test]
fn verbose_check_reports_changes() {
    let (mut s, _) = SyncSession::new(SyncOp::Check { verbose: true }, configured());
    s.step(SyncEvent::LocalStore { contents: Some(b"local".to_vec()) });
    let remote = RemoteDescriptor { hash: "abcd".to_string(), last_sync: "2024-05-01T00:00:00Z".to_string() };
    match s.step(SyncEvent::DescriptorFetched { status: 200, descriptor: Some(remote) }) {
        SyncAction::DownloadBlob { url } => assert_eq!(url, format!("{}/albums.db", BASE)),
        other => panic!("unexpected {:?}", other),
    }
    match s.step(SyncEvent::BlobFetched { status: 200, contents: b"snapshot".to_vec() }) {
        SyncAction::LoadRecords { snapshot } => assert_eq!(snapshot, b"snapshot".to_vec()),
        other => panic!("unexpected {:?}", other),
    }
    let local = vec![album(1, "A"), album(2, "B")];
    let remote = vec![album(2, "B prime"), album(3, "C")];
    match s.step(SyncEvent::RecordsLoaded { local, remote }) {
        SyncAction::Finish { outcome: SyncOutcome::OutOfSync { last_sync, changes } } => {
            assert_eq!(last_sync, "2024-05-01T00:00:00Z");
            assert_eq!(changes, Some(ChangeCounts { added: 1, deleted: 1, updated: 1 }));
        }
        other => panic!("unexpected {:?}", other),
    }
}

#[test]
fn verbose_check_rejects_unkeyed_records() {
    let (mut s, _) = SyncSession::new(SyncOp::Check { verbose: true }, configured());
    s.step(SyncEvent::LocalStore { contents: Some(b"local".to_vec()) });
    let remote = RemoteDescriptor { hash: "abcd".to_string(), last_sync: "t".to_string() };
    s.step(SyncEvent::DescriptorFetched { status: 200, descriptor: Some(remote) });
    s.step(SyncEvent::BlobFetched { status: 200, contents: vec![] });
    match s.step(SyncEvent::RecordsLoaded { local: vec![album(1, "A"), album(1, "B")], remote: vec![] }) {
        SyncAction::Fail { error } => assert_eq!(error, SyncError::UnkeyedRecords),
        other => panic!("unexpected {:?}", other),
    }
}

#[test]
fn verbose_snapshot_download_failure() {
    let (mut s, _) = SyncSession::new(SyncOp::Check { verbose: true }, configured());
    s.step(SyncEvent::LocalStore { contents: None });
    let remote = RemoteDescriptor { hash: "abcd".to_string(), last_sync: "t".to_string() };
    s.step(SyncEvent::DescriptorFetched { status: 200, descriptor: Some(remote) });
    match s.step(SyncEvent::BlobFetched { status: 502, contents: vec![] }) {
        SyncAction::Fail { error } => assert_eq!(error, SyncError::BlobDownload { status: 502 }),
        other => panic!("unexpected {:?}", other),
    }
}
