use hq_launcher::install::{install_step, InstallAction, InstallEvent, InstallState};
use hq_launcher::mod_config::{ModEntry, ModsConfig, RemoteManifest};
use hq_launcher::sync::{sync_step, SyncAction, SyncEvent, SyncState};

fn remote_manifest() -> RemoteManifest {
    RemoteManifest {
        version: 9,
        manifests: vec![(56, "depot-56".to_string())],
        chain_config: Vec::new(),
        mods: vec![ModEntry {
            name: "SomeMod".to_string(),
            dev: "SomeDev".to_string(),
            enabled: true,
            low_cap: None,
            high_cap: None,
            version_config: Vec::new(),
        }],
    }
}

fn mods_config() -> ModsConfig {
    ModsConfig {
        mods: vec![ModEntry {
            name: "SomeMod".to_string(),
            dev: "SomeDev".to_string(),
            enabled: true,
            low_cap: None,
            high_cap: None,
            version_config: Vec::new(),
        }],
    }
}

#[test]
fn install_happy_path_runs_five_steps_and_finishes() {
    let path = "versions/v56";
    let t = install_step(InstallState::Idle, InstallEvent::Begin, 56, path);
    assert!(matches!(t.next, InstallState::AwaitLogin));
    assert!(matches!(t.actions[1], InstallAction::CheckLogin));

    let t = install_step(
        t.next,
        InstallEvent::LoginChecked { logged_in: true, username: Some("player".to_string()) },
        56,
        path,
    );
    assert!(matches!(t.next, InstallState::AwaitManifest));
    assert!(matches!(t.actions[1], InstallAction::FetchManifest));

    let t = install_step(
        t.next,
        InstallEvent::ManifestFetched { remote: remote_manifest() },
        56,
        path,
    );
    assert!(matches!(t.next, InstallState::AwaitDepot { .. }));
    assert!(matches!(t.actions[1], InstallAction::RecreateVersionDir));
    match &t.actions[2] {
        InstallAction::DownloadDepot { manifest_id } => assert_eq!(manifest_id, "depot-56"),
        other => panic!("expected DownloadDepot, got a different action: {:?}", kind(other)),
    }

    let t = install_step(t.next, InstallEvent::DepotDone, 56, path);
    assert!(matches!(t.next, InstallState::AwaitLoader { .. }));
    assert!(matches!(t.actions[2], InstallAction::DownloadLoader));

    // Streaming progress keeps the machine in place.
    let t2 = install_step(
        t.next,
        InstallEvent::LoaderChunk { downloaded: 512, total_bytes: Some(1024) },
        56,
        path,
    );
    assert!(matches!(t2.next, InstallState::AwaitLoader { .. }));
    match &t2.actions[0] {
        InstallAction::EmitProgress(p) => {
            assert_eq!(p.step, 3);
            // Half the bytes, weighted to the step's first half: a quarter.
            assert_eq!(p.step_progress, 2500);
            assert_eq!(p.downloaded_bytes, Some(512));
            assert_eq!(p.total_bytes, Some(1024));
        }
        other => panic!("expected EmitProgress, got {:?}", kind(other)),
    }

    let t = install_step(
        t2.next,
        InstallEvent::LoaderDownloaded { header: vec![b'P', b'K', 3, 4] },
        56,
        path,
    );
    assert!(matches!(t.next, InstallState::AwaitExtract { .. }));
    assert!(matches!(t.actions[0], InstallAction::ExtractLoader));

    let t = install_step(t.next, InstallEvent::Extracted, 56, path);
    assert!(matches!(t.next, InstallState::AwaitLink { .. }));
    assert!(matches!(t.actions[0], InstallAction::DeleteLoaderArchive));
    assert!(matches!(t.actions[3], InstallAction::LinkConfig));

    let t = install_step(t.next, InstallEvent::Linked, 56, path);
    assert!(matches!(t.next, InstallState::AwaitMods));
    match &t.actions[2] {
        InstallAction::InstallMods { tasks } => {
            assert_eq!(tasks.len(), 1);
            assert_eq!(tasks[0].name, "SomeMod");
            assert_eq!(tasks[0].pinned, None);
        }
        other => panic!("expected InstallMods, got {:?}", kind(other)),
    }

    let t = install_step(t.next, InstallEvent::ModsDone, 56, path);
    assert!(matches!(t.next, InstallState::Done));
    match &t.actions[1] {
        InstallAction::EmitFinished(f) => {
            assert_eq!(f.version, 56);
            assert_eq!(f.path, path);
        }
        other => panic!("expected EmitFinished, got {:?}", kind(other)),
    }
    match &t.actions[0] {
        InstallAction::EmitProgress(p) => assert_eq!(p.overall_percent, 10000),
        other => panic!("expected EmitProgress, got {:?}", kind(other)),
    }
}

#[test]
fn loader_progress_without_length_estimate_is_zero() {
    let t = install_step(
        InstallState::AwaitLoader { mods: mods_config() },
        InstallEvent::LoaderChunk { downloaded: 4096, total_bytes: None },
        56,
        "p",
    );
    match &t.actions[0] {
        InstallAction::EmitProgress(p) => {
            assert_eq!(p.step_progress, 0);
            assert_eq!(p.downloaded_bytes, Some(4096));
            assert_eq!(p.total_bytes, None);
        }
        other => panic!("expected EmitProgress, got {:?}", kind(other)),
    }
}

#[test]
fn extracting_an_empty_archive_completes_the_step_half() {
    let t = install_step(
        InstallState::AwaitExtract { mods: mods_config() },
        InstallEvent::ExtractProgress { done: 0, total: 0 },
        56,
        "p",
    );
    match &t.actions[0] {
        InstallAction::EmitProgress(p) => {
            // Extraction is weighted to the step's second half; an empty
            // archive counts as fully extracted.
            assert_eq!(p.step_progress, 10000);
        }
        other => panic!("expected EmitProgress, got {:?}", kind(other)),
    }
}

#[test]
fn install_without_login_fails_at_once() {
    let t = install_step(InstallState::Idle, InstallEvent::Begin, 56, "p");
    let t = install_step(
        t.next,
        InstallEvent::LoginChecked { logged_in: false, username: None },
        56,
        "p",
    );
    assert!(matches!(t.next, InstallState::Failed));
    assert_eq!(t.actions.len(), 1);
    match &t.actions[0] {
        InstallAction::EmitError(e) => {
            assert_eq!(e.version, 56);
            assert_eq!(e.message, "Not logged in to Steam. Please login first.");
        }
        other => panic!("expected EmitError, got {:?}", kind(other)),
    }
}

#[test]
fn install_fails_when_version_has_no_depot_id() {
    let t = install_step(
        InstallState::AwaitManifest,
        InstallEvent::ManifestFetched { remote: remote_manifest() },
        99,
        "p",
    );
    assert!(matches!(t.next, InstallState::Failed));
    // The lookup fails before the destructive step: nothing is purged.
    assert_eq!(t.actions.len(), 2);
    for a in &t.actions {
        assert!(!matches!(a, InstallAction::RecreateVersionDir));
    }
    match &t.actions[1] {
        InstallAction::EmitError(e) => {
            assert_eq!(
                e.message,
                "No depot manifest id for this game version in the remote manifest."
            );
        }
        other => panic!("expected EmitError, got {:?}", kind(other)),
    }
}

#[test]
fn non_zip_download_is_deleted_and_never_extracted() {
    let state = InstallState::AwaitLoader { mods: mods_config() };
    // An HTML error body instead of a zip archive.
    let t = install_step(
        state,
        InstallEvent::LoaderDownloaded { header: b"<html>".to_vec() },
        56,
        "p",
    );
    assert!(matches!(t.next, InstallState::Failed));
    assert_eq!(t.actions.len(), 2);
    assert!(matches!(t.actions[0], InstallAction::DeleteLoaderArchive));
    match &t.actions[1] {
        InstallAction::EmitError(e) => assert!(e.message.contains("not a valid zip")),
        other => panic!("expected EmitError, got {:?}", kind(other)),
    }
    for a in &t.actions {
        assert!(!matches!(a, InstallAction::ExtractLoader));
    }

    // A too-short body is rejected the same way.
    let t = install_step(
        InstallState::AwaitLoader { mods: mods_config() },
        InstallEvent::LoaderDownloaded { header: vec![b'P'] },
        56,
        "p",
    );
    assert!(matches!(t.next, InstallState::Failed));
}

#[test]
fn install_failure_mid_pipeline_emits_single_error() {
    let t = install_step(
        InstallState::AwaitDepot { mods: mods_config() },
        InstallEvent::DepotFailed { message: "network gone".to_string() },
        56,
        "p",
    );
    assert!(matches!(t.next, InstallState::Failed));
    assert_eq!(t.actions.len(), 1);
    match &t.actions[0] {
        InstallAction::EmitError(e) => assert_eq!(e.message, "network gone"),
        other => panic!("expected EmitError, got {:?}", kind(other)),
    }
}

#[test]
fn sync_with_unchanged_manifest_does_nothing() {
    let t = sync_step(
        SyncState::Idle,
        SyncEvent::GateInfo {
            latest: Some(56),
            local_version: 9,
            remote_version: 9,
            mods: mods_config(),
        },
        "root",
    );
    assert!(matches!(t.next, SyncState::Skipped));
    assert!(t.actions.is_empty());
}

#[test]
fn sync_without_any_install_does_nothing() {
    let t = sync_step(
        SyncState::Idle,
        SyncEvent::GateInfo {
            latest: None,
            local_version: 3,
            remote_version: 9,
            mods: mods_config(),
        },
        "root",
    );
    assert!(matches!(t.next, SyncState::Skipped));
    assert!(t.actions.is_empty());
}

#[test]
fn sync_happy_path_applies_and_persists() {
    let root = "versions/v56";
    let t = sync_step(
        SyncState::Idle,
        SyncEvent::GateInfo {
            latest: Some(56),
            local_version: 3,
            remote_version: 9,
            mods: mods_config(),
        },
        root,
    );
    assert!(matches!(t.next, SyncState::AwaitConfigZip { .. }));
    assert!(matches!(t.actions[1], SyncAction::DownloadConfigZip));

    let t = sync_step(t.next, SyncEvent::ConfigZipDownloaded, root);
    assert!(matches!(t.next, SyncState::AwaitLink { .. }));
    assert!(matches!(t.actions[0], SyncAction::EnsureSharedLink));

    let t = sync_step(t.next, SyncEvent::Linked, root);
    assert!(matches!(t.next, SyncState::AwaitExtract { .. }));
    assert!(matches!(t.actions[0], SyncAction::ExtractConfigArchive));

    let t2 = sync_step(
        t.next,
        SyncEvent::ExtractProgress { done: 1, total: 4, name: Some("a.cfg".to_string()) },
        root,
    );
    assert!(matches!(t2.next, SyncState::AwaitExtract { .. }));
    match &t2.actions[0] {
        SyncAction::EmitProgress(p) => {
            assert_eq!(p.step, 1);
            assert_eq!(p.step_progress, 2500);
            assert_eq!(p.extracted_files, Some(1));
            assert_eq!(p.total_files, Some(4));
        }
        _ => panic!("expected EmitProgress"),
    }

    let t = sync_step(t2.next, SyncEvent::Extracted, root);
    assert!(matches!(t.next, SyncState::AwaitMods { .. }));
    assert!(matches!(t.actions[0], SyncAction::DeleteConfigArchive));
    match &t.actions[2] {
        SyncAction::InstallMods { tasks } => assert_eq!(tasks.len(), 1),
        _ => panic!("expected InstallMods"),
    }

    let t = sync_step(t.next, SyncEvent::ModsDone, root);
    assert!(matches!(t.next, SyncState::Done));
    match &t.actions[1] {
        SyncAction::WriteManifestState { manifest_version } => assert_eq!(*manifest_version, 9),
        _ => panic!("expected WriteManifestState"),
    }
    match &t.actions[2] {
        SyncAction::EmitFinished(f) => {
            assert_eq!(f.version, 56);
            assert_eq!(f.path, root);
        }
        _ => panic!("expected EmitFinished"),
    }
}

#[test]
fn sync_failure_keeps_the_old_counter() {
    let t = sync_step(
        SyncState::AwaitMods { game_version: 56, remote_version: 9 },
        SyncEvent::ModsFailed { message: "mod install failed".to_string() },
        "root",
    );
    assert!(matches!(t.next, SyncState::Failed));
    assert_eq!(t.actions.len(), 1);
    match &t.actions[0] {
        SyncAction::EmitError(e) => {
            assert_eq!(e.version, 56);
            assert_eq!(e.message, "mod install failed");
        }
        _ => panic!("expected EmitError"),
    }
    for a in &t.actions {
        assert!(!matches!(a, SyncAction::WriteManifestState { .. }));
    }
}

fn kind(a: &InstallAction) -> &'static str {
    match a {
        InstallAction::EmitProgress(_) => "EmitProgress",
        InstallAction::CheckLogin => "CheckLogin",
        InstallAction::FetchManifest => "FetchManifest",
        InstallAction::RecreateVersionDir => "RecreateVersionDir",
        InstallAction::DownloadDepot { .. } => "DownloadDepot",
        InstallAction::DownloadLoader => "DownloadLoader",
        InstallAction::DeleteLoaderArchive => "DeleteLoaderArchive",
        InstallAction::ExtractLoader => "ExtractLoader",
        InstallAction::LinkConfig => "LinkConfig",
        InstallAction::InstallMods { .. } => "InstallMods",
        InstallAction::EmitFinished(_) => "EmitFinished",
        InstallAction::EmitError(_) => "EmitError",
    }
}
