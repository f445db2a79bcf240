use vstd::prelude::*;
use crate::mod_config::{
    ModsConfig, ModTask, RemoteManifest, compatible_mod_tasks, manifest_id_for, spec_mod_tasks,
    spec_manifest_lookup, spec_normalized_entry,
};
use crate::progress::{
    PROGRESS_SCALE, TaskErrorPayload, TaskFinishedPayload, TaskProgressPayload, byte_fraction_bp,
    fraction_bp, progress_record, spec_fraction_bp, spec_overall,
};

verus! {

/// The fresh-install pipeline has five steps: login check, game download,
/// mod-loader install, config install, mods install.
pub const INSTALL_STEPS: u32 = 5;

/// Where a fresh-install run stands: which outside work it is waiting on.
/// `Done` and `Failed` are terminal; no event is accepted there.
pub enum InstallState {
    Idle,
    AwaitLogin,
    AwaitManifest,
    AwaitDepot { mods: ModsConfig },
    AwaitLoader { mods: ModsConfig },
    AwaitExtract { mods: ModsConfig },
    AwaitLink { mods: ModsConfig },
    AwaitMods,
    Done,
    Failed,
}

/// What the surrounding runner reports back: the outcome of the outside work
/// the machine asked for, or a progress notification from it.
pub enum InstallEvent {
    Begin,
    LoginChecked { logged_in: bool, username: Option<String> },
    ManifestFetched { remote: RemoteManifest },
    ManifestFailed { message: String },
    DepotDone,
    DepotFailed { message: String },
    LoaderChunk { downloaded: u64, total_bytes: Option<u64> },
    LoaderDownloaded { header: Vec<u8> },
    LoaderFailed { message: String },
    ExtractProgress { done: u64, total: u64 },
    Extracted,
    ExtractFailed { message: String },
    Linked,
    LinkFailed { message: String },
    ModsProgress { done: u64, total: u64, detail: Option<String> },
    ModsDone,
    ModsFailed { message: String },
}

/// What the runner must do next. Progress and terminal records go to the
/// presentation collaborator; the rest name outside work.
pub enum InstallAction {
    EmitProgress(TaskProgressPayload),
    CheckLogin,
    FetchManifest,
    /// Delete any pre-existing directory for this version and recreate it
    /// empty: the pipeline's only destructive step.
    RecreateVersionDir,
    DownloadDepot { manifest_id: String },
    DownloadLoader,
    DeleteLoaderArchive,
    ExtractLoader,
    LinkConfig,
    InstallMods { tasks: Vec<ModTask> },
    EmitFinished(TaskFinishedPayload),
    EmitError(TaskErrorPayload),
}

pub struct InstallTransition {
    pub next: InstallState,
    pub actions: Vec<InstallAction>,
}

/// Which events may arrive in which state.
pub open spec fn spec_event_fits(state: InstallState, event: InstallEvent) -> bool {
    match state {
        InstallState::Idle => event is Begin,
        InstallState::AwaitLogin => event is LoginChecked,
        InstallState::AwaitManifest => event is ManifestFetched || event is ManifestFailed,
        InstallState::AwaitDepot { .. } => event is DepotDone || event is DepotFailed,
        InstallState::AwaitLoader { .. } => event is LoaderChunk || event is LoaderDownloaded
            || event is LoaderFailed,
        InstallState::AwaitExtract { .. } => event is ExtractProgress || event is Extracted
            || event is ExtractFailed,
        InstallState::AwaitLink { .. } => event is Linked || event is LinkFailed,
        InstallState::AwaitMods => event is ModsProgress || event is ModsDone
            || event is ModsFailed,
        InstallState::Done => false,
        InstallState::Failed => false,
    }
}

pub open spec fn spec_has_finished(actions: Seq<InstallAction>) -> bool {
    exists|i: int| 0 <= i < actions.len() && actions[i] is EmitFinished
}

pub open spec fn spec_has_error(actions: Seq<InstallAction>) -> bool {
    exists|i: int| 0 <= i < actions.len() && actions[i] is EmitError
}

/// One progress record of the install pipeline, as an action.
pub open spec fn spec_progress_action(
    a: InstallAction,
    version: u32,
    step: u32,
    name: Seq<char>,
    sp: u32,
) -> bool {
    a matches InstallAction::EmitProgress(p) && p.version == version && p.steps_total
        == INSTALL_STEPS && p.step == step && p.step_name@ == name && p.step_progress == sp
        && p.overall_percent == spec_overall(step, sp, INSTALL_STEPS)
}

/// A failing transition: the single terminal error record, nothing else.
pub open spec fn spec_fail_only(r: InstallTransition, version: u32, message: Seq<char>) -> bool {
    &&& r.next is Failed
    &&& r.actions@.len() == 1
    &&& (r.actions@[0] matches InstallAction::EmitError(e) && e.version == version && e.message@
        == message)
}

/// A downloaded archive is plausible exactly when it opens with the zip
/// magic bytes `PK`; anything else is taken for an HTML error body.
pub open spec fn spec_zip_magic_ok(header: Seq<u8>) -> bool {
    header.len() >= 2 && header[0] == 80 && header[1] == 75
}

/// Checks the archive signature of a downloaded package's first bytes.
pub fn zip_magic_ok(header: &Vec<u8>) -> (r: bool)
    ensures
        r == spec_zip_magic_ok(header@),
{
    header.len() >= 2 && header[0] == 80 && header[1] == 75
}

pub open spec fn spec_byte_fraction(downloaded: u64, total: Option<u64>) -> int {
    match total {
        None => 0,
        Some(t) => if t == 0 {
            0
        } else {
            spec_fraction_bp(downloaded, t)
        },
    }
}

/// One step of the fresh-install state machine: consumes the event the
/// current state waits on and decides the next state and the actions the
/// runner performs. A run emits its terminal record exactly when it enters a
/// terminal state, and `spec_event_fits` admits no event there, so every run
/// ends in exactly one `EmitFinished` or one `EmitError`.
pub fn install_step(
    state: InstallState,
    event: InstallEvent,
    version: u32,
    install_path: &str,
) -> (r: InstallTransition)
    requires
        spec_event_fits(state, event),
    ensures
        spec_has_finished(r.actions@) <==> r.next is Done,
        spec_has_error(r.actions@) <==> r.next is Failed,
        state is Idle ==> {
            &&& r.next is AwaitLogin
            &&& r.actions@.len() == 2
            &&& spec_progress_action(r.actions@[0], version, 1, "Login Check"@, 0)
            &&& (r.actions@[0] matches InstallAction::EmitProgress(p) && p.detail matches Some(d)
                && d@ == "Checking Steam login..."@)
            &&& r.actions@[1] is CheckLogin
        },
        event matches InstallEvent::LoginChecked { logged_in, username } ==> {
            &&& !logged_in ==> spec_fail_only(
                r,
                version,
                "Not logged in to Steam. Please login first."@,
            )
            &&& logged_in ==> {
                &&& r.next is AwaitManifest
                &&& r.actions@.len() == 2
                &&& spec_progress_action(
                    r.actions@[0],
                    version,
                    1,
                    "Login Check"@,
                    PROGRESS_SCALE,
                )
                &&& (r.actions@[0] matches InstallAction::EmitProgress(p) && p.detail == username)
                &&& r.actions@[1] is FetchManifest
            }
        },
        event matches InstallEvent::ManifestFailed { message } ==> spec_fail_only(
            r,
            version,
            message@,
        ),
        event matches InstallEvent::ManifestFetched { remote } ==> {
            &&& spec_progress_action(r.actions@[0], version, 2, "Download Game"@, 0)
            &&& (r.actions@[0] matches InstallAction::EmitProgress(p) && p.detail matches Some(d)
                && d@ == "Starting download..."@ && p.downloaded_bytes == Some(0u64))
            &&& match spec_manifest_lookup(remote.manifests@, version) {
                Some(id) => {
                    &&& r.actions@.len() == 3
                    &&& r.actions@[1] is RecreateVersionDir
                    &&& (r.actions@[2] matches InstallAction::DownloadDepot { manifest_id }
                        && manifest_id == id)
                    &&& (r.next matches InstallState::AwaitDepot { mods } && mods.mods@.len()
                        == remote.mods@.len() && (forall|i: int|
                        0 <= i < remote.mods@.len() ==> spec_normalized_entry(
                            remote.mods@[i],
                            mods.mods@[i],
                        )))
                },
                None => {
                    // The depot id is resolved before the only destructive
                    // step, so a version absent from the manifest purges
                    // nothing.
                    &&& r.actions@.len() == 2
                    &&& (r.actions@[1] matches InstallAction::EmitError(e) && e.version == version
                        && e.message@
                        == "No depot manifest id for this game version in the remote manifest."@)
                    &&& r.next is Failed
                },
            }
        },
        event matches InstallEvent::DepotFailed { message } ==> spec_fail_only(
            r,
            version,
            message@,
        ),
        state matches InstallState::AwaitDepot { mods } ==> (event is DepotDone ==> {
            &&& (r.next matches InstallState::AwaitLoader { mods: m2 } && m2 == mods)
            &&& r.actions@.len() == 3
            &&& spec_progress_action(
                r.actions@[0],
                version,
                2,
                "Download Game"@,
                PROGRESS_SCALE,
            )
            &&& (r.actions@[0] matches InstallAction::EmitProgress(p) && p.detail matches Some(d)
                && d@ == "Download complete"@)
            &&& spec_progress_action(r.actions@[1], version, 3, "Install BepInEx"@, 0)
            &&& (r.actions@[1] matches InstallAction::EmitProgress(p) && p.detail matches Some(d)
                && d@ == "Downloading BepInEx..."@ && p.downloaded_bytes == Some(0u64))
            &&& r.actions@[2] is DownloadLoader
        }),
        state matches InstallState::AwaitLoader { mods } ==> {
            &&& (event matches InstallEvent::LoaderChunk { downloaded, total_bytes } ==> {
                &&& (r.next matches InstallState::AwaitLoader { mods: m2 } && m2 == mods)
                &&& r.actions@.len() == 1
                &&& spec_progress_action(
                    r.actions@[0],
                    version,
                    3,
                    "Install BepInEx"@,
                    (spec_byte_fraction(downloaded, total_bytes) / 2) as u32,
                )
                &&& (r.actions@[0] matches InstallAction::EmitProgress(p) && p.downloaded_bytes
                    == Some(downloaded) && p.total_bytes == total_bytes && p.detail is None)
            })
            &&& (event matches InstallEvent::LoaderDownloaded { header } ==> {
                &&& !spec_zip_magic_ok(header@) ==> {
                    &&& r.next is Failed
                    &&& r.actions@.len() == 2
                    &&& r.actions@[0] is DeleteLoaderArchive
                    &&& (r.actions@[1] matches InstallAction::EmitError(e) && e.version == version
                        && e.message@
                        == "BepInExPack download is not a valid zip (got non-zip response). Please retry."@)
                }
                &&& spec_zip_magic_ok(header@) ==> {
                    &&& (r.next matches InstallState::AwaitExtract { mods: m2 } && m2 == mods)
                    &&& r.actions@.len() == 1
                    &&& r.actions@[0] is ExtractLoader
                }
            })
        },
        event matches InstallEvent::LoaderFailed { message } ==> spec_fail_only(
            r,
            version,
            message@,
        ),
        state matches InstallState::AwaitExtract { mods } ==> {
            &&& (event matches InstallEvent::ExtractProgress { done, total } ==> {
                &&& (r.next matches InstallState::AwaitExtract { mods: m2 } && m2 == mods)
                &&& r.actions@.len() == 1
                &&& spec_progress_action(
                    r.actions@[0],
                    version,
                    3,
                    "Install BepInEx"@,
                    (5000 + spec_fraction_bp(done, total) / 2) as u32,
                )
                &&& (r.actions@[0] matches InstallAction::EmitProgress(p) && p.extracted_files
                    == Some(done) && p.total_files == Some(total))
            })
            &&& (event is Extracted ==> {
                &&& (r.next matches InstallState::AwaitLink { mods: m2 } && m2 == mods)
                &&& r.actions@.len() == 4
                &&& r.actions@[0] is DeleteLoaderArchive
                &&& spec_progress_action(
                    r.actions@[1],
                    version,
                    3,
                    "Install BepInEx"@,
                    PROGRESS_SCALE,
                )
                &&& (r.actions@[1] matches InstallAction::EmitProgress(p) && p.detail matches Some(
                    d,
                ) && d@ == "BepInExPack installed"@)
                &&& spec_progress_action(r.actions@[2], version, 4, "Install Config"@, 0)
                &&& (r.actions@[2] matches InstallAction::EmitProgress(p) && p.detail matches Some(
                    d,
                ) && d@ == "Setting up config..."@)
                &&& r.actions@[3] is LinkConfig
            })
        },
        event matches InstallEvent::ExtractFailed { message } ==> spec_fail_only(
            r,
            version,
            message@,
        ),
        state matches InstallState::AwaitLink { mods } ==> (event is Linked ==> {
            &&& r.next is AwaitMods
            &&& r.actions@.len() == 3
            &&& spec_progress_action(
                r.actions@[0],
                version,
                4,
                "Install Config"@,
                PROGRESS_SCALE,
            )
            &&& (r.actions@[0] matches InstallAction::EmitProgress(p) && p.detail matches Some(d)
                && d@ == "Config ready"@)
            &&& spec_progress_action(r.actions@[1], version, 5, "Install Mods"@, 0)
            &&& (r.actions@[1] matches InstallAction::EmitProgress(p) && p.detail matches Some(d)
                && d@ == "Installing plugins..."@ && p.extracted_files == Some(0u64))
            &&& (r.actions@[2] matches InstallAction::InstallMods { tasks } && tasks@
                == spec_mod_tasks(mods.mods@, version))
        }),
        event matches InstallEvent::LinkFailed { message } ==> spec_fail_only(r, version, message@),
        event matches InstallEvent::ModsProgress { done, total, detail } ==> {
            &&& r.next is AwaitMods
            &&& r.actions@.len() == 1
            &&& spec_progress_action(
                r.actions@[0],
                version,
                5,
                "Install Mods"@,
                spec_fraction_bp(done, total) as u32,
            )
            &&& (r.actions@[0] matches InstallAction::EmitProgress(p) && p.extracted_files == Some(
                done,
            ) && p.total_files == Some(total) && p.detail == detail)
        },
        event is ModsDone ==> {
            &&& r.next is Done
            &&& r.actions@.len() == 2
            &&& spec_progress_action(
                r.actions@[0],
                version,
                5,
                "Install Mods"@,
                PROGRESS_SCALE,
            )
            &&& (r.actions@[0] matches InstallAction::EmitProgress(p) && p.detail matches Some(d)
                && d@ == "Mods installed"@)
            &&& (r.actions@[1] matches InstallAction::EmitFinished(f) && f.version == version
                && f.path@ == install_path@)
        },
        event matches InstallEvent::ModsFailed { message } ==> spec_fail_only(r, version, message@),
{
    match state {
        InstallState::Idle => {
            let mut actions: Vec<InstallAction> = Vec::new();
            actions.push(
                InstallAction::EmitProgress(
                    progress_record(
                        version,
                        INSTALL_STEPS,
                        1,
                        "Login Check",
                        0,
                        Some("Checking Steam login...".to_owned()),
                        None,
                        None,
                        None,
                        None,
                    ),
                ),
            );
            actions.push(InstallAction::CheckLogin);
            InstallTransition { next: InstallState::AwaitLogin, actions }
        },
        InstallState::AwaitLogin => {
            match event {
                InstallEvent::LoginChecked { logged_in, username } => {
                    if !logged_in {
                        fail_transition(
                            version,
                            "Not logged in to Steam. Please login first.".to_owned(),
                        )
                    } else {
                        let mut actions: Vec<InstallAction> = Vec::new();
                        actions.push(
                            InstallAction::EmitProgress(
                                progress_record(
                                    version,
                                    INSTALL_STEPS,
                                    1,
                                    "Login Check",
                                    PROGRESS_SCALE,
                                    username,
                                    None,
                                    None,
                                    None,
                                    None,
                                ),
                            ),
                        );
                        actions.push(InstallAction::FetchManifest);
                        InstallTransition { next: InstallState::AwaitManifest, actions }
                    }
                },
                _ => {
                    proof {
                        assert(false);
                    }
                    InstallTransition { next: InstallState::Failed, actions: Vec::new() }
                },
            }
        },
        InstallState::AwaitManifest => {
            match event {
                InstallEvent::ManifestFailed { message } => fail_transition(version, message),
                InstallEvent::ManifestFetched { remote } => {
                    let (_mv, cfg, _chain, manifests) = ModsConfig::from_remote(remote);
                    let mut actions: Vec<InstallAction> = Vec::new();
                    actions.push(
                        InstallAction::EmitProgress(
                            progress_record(
                                version,
                                INSTALL_STEPS,
                                2,
                                "Download Game",
                                0,
                                Some("Starting download...".to_owned()),
                                Some(0),
                                None,
                                None,
                                None,
                            ),
                        ),
                    );
                    match manifest_id_for(&manifests, version) {
                        Some(id) => {
                            actions.push(InstallAction::RecreateVersionDir);
                            actions.push(InstallAction::DownloadDepot { manifest_id: id });
                            InstallTransition {
                                next: InstallState::AwaitDepot { mods: cfg },
                                actions,
                            }
                        },
                        None => {
                            actions.push(
                                InstallAction::EmitError(
                                    TaskErrorPayload {
                                        version,
                                        message:
                                            "No depot manifest id for this game version in the remote manifest.".to_owned(),
                                    },
                                ),
                            );
                            InstallTransition { next: InstallState::Failed, actions }
                        },
                    }
                },
                _ => {
                    proof {
                        assert(false);
                    }
                    InstallTransition { next: InstallState::Failed, actions: Vec::new() }
                },
            }
        },
        InstallState::AwaitDepot { mods } => {
            match event {
                InstallEvent::DepotFailed { message } => fail_transition(version, message),
                InstallEvent::DepotDone => {
                    let mut actions: Vec<InstallAction> = Vec::new();
                    actions.push(
                        InstallAction::EmitProgress(
                            progress_record(
                                version,
                                INSTALL_STEPS,
                                2,
                                "Download Game",
                                PROGRESS_SCALE,
                                Some("Download complete".to_owned()),
                                None,
                                None,
                                None,
                                None,
                            ),
                        ),
                    );
                    actions.push(
                        InstallAction::EmitProgress(
                            progress_record(
                                version,
                                INSTALL_STEPS,
                                3,
                                "Install BepInEx",
                                0,
                                Some("Downloading BepInEx...".to_owned()),
                                Some(0),
                                None,
                                None,
                                None,
                            ),
                        ),
                    );
                    actions.push(InstallAction::DownloadLoader);
                    InstallTransition { next: InstallState::AwaitLoader { mods }, actions }
                },
                _ => {
                    proof {
                        assert(false);
                    }
                    InstallTransition { next: InstallState::Failed, actions: Vec::new() }
                },
            }
        },
        InstallState::AwaitLoader { mods } => {
            match event {
                InstallEvent::LoaderFailed { message } => fail_transition(version, message),
                InstallEvent::LoaderChunk { downloaded, total_bytes } => {
                    let sp = byte_fraction_bp(downloaded, total_bytes) / 2;
                    let mut actions: Vec<InstallAction> = Vec::new();
                    actions.push(
                        InstallAction::EmitProgress(
                            progress_record(
                                version,
                                INSTALL_STEPS,
                                3,
                                "Install BepInEx",
                                sp,
                                None,
                                Some(downloaded),
                                total_bytes,
                                None,
                                None,
                            ),
                        ),
                    );
                    InstallTransition { next: InstallState::AwaitLoader { mods }, actions }
                },
                InstallEvent::LoaderDownloaded { header } => {
                    if !zip_magic_ok(&header) {
                        let mut actions: Vec<InstallAction> = Vec::new();
                        actions.push(InstallAction::DeleteLoaderArchive);
                        actions.push(
                            InstallAction::EmitError(
                                TaskErrorPayload {
                                    version,
                                    message:
                                        "BepInExPack download is not a valid zip (got non-zip response). Please retry.".to_owned(),
                                },
                            ),
                        );
                        InstallTransition { next: InstallState::Failed, actions }
                    } else {
                        let mut actions: Vec<InstallAction> = Vec::new();
                        actions.push(InstallAction::ExtractLoader);
                        InstallTransition { next: InstallState::AwaitExtract { mods }, actions }
                    }
                },
                _ => {
                    proof {
                        assert(false);
                    }
                    InstallTransition { next: InstallState::Failed, actions: Vec::new() }
                },
            }
        },
        InstallState::AwaitExtract { mods } => {
            match event {
                InstallEvent::ExtractFailed { message } => fail_transition(version, message),
                InstallEvent::ExtractProgress { done, total } => {
                    let sp = 5000 + fraction_bp(done, total) / 2;
                    let mut actions: Vec<InstallAction> = Vec::new();
                    actions.push(
                        InstallAction::EmitProgress(
                            progress_record(
                                version,
                                INSTALL_STEPS,
                                3,
                                "Install BepInEx",
                                sp,
                                None,
                                None,
                                None,
                                Some(done),
                                Some(total),
                            ),
                        ),
                    );
                    InstallTransition { next: InstallState::AwaitExtract { mods }, actions }
                },
                InstallEvent::Extracted => {
                    let mut actions: Vec<InstallAction> = Vec::new();
                    actions.push(InstallAction::DeleteLoaderArchive);
                    actions.push(
                        InstallAction::EmitProgress(
                            progress_record(
                                version,
                                INSTALL_STEPS,
                                3,
                                "Install BepInEx",
                                PROGRESS_SCALE,
                                Some("BepInExPack installed".to_owned()),
                                None,
                                None,
                                None,
                                None,
                            ),
                        ),
                    );
                    actions.push(
                        InstallAction::EmitProgress(
                            progress_record(
                                version,
                                INSTALL_STEPS,
                                4,
                                "Install Config",
                                0,
                                Some("Setting up config...".to_owned()),
                                None,
                                None,
                                None,
                                None,
                            ),
                        ),
                    );
                    actions.push(InstallAction::LinkConfig);
                    InstallTransition { next: InstallState::AwaitLink { mods }, actions }
                },
                _ => {
                    proof {
                        assert(false);
                    }
                    InstallTransition { next: InstallState::Failed, actions: Vec::new() }
                },
            }
        },
        InstallState::AwaitLink { mods } => {
            match event {
                InstallEvent::LinkFailed { message } => fail_transition(version, message),
                InstallEvent::Linked => {
                    let tasks = compatible_mod_tasks(&mods, version);
                    let mut actions: Vec<InstallAction> = Vec::new();
                    actions.push(
                        InstallAction::EmitProgress(
                            progress_record(
                                version,
                                INSTALL_STEPS,
                                4,
                                "Install Config",
                                PROGRESS_SCALE,
                                Some("Config ready".to_owned()),
                                None,
                                None,
                                None,
                                None,
                            ),
                        ),
                    );
                    actions.push(
                        InstallAction::EmitProgress(
                            progress_record(
                                version,
                                INSTALL_STEPS,
                                5,
                                "Install Mods",
                                0,
                                Some("Installing plugins...".to_owned()),
                                None,
                                None,
                                Some(0),
                                None,
                            ),
                        ),
                    );
                    actions.push(InstallAction::InstallMods { tasks });
                    InstallTransition { next: InstallState::AwaitMods, actions }
                },
                _ => {
                    proof {
                        assert(false);
                    }
                    InstallTransition { next: InstallState::Failed, actions: Vec::new() }
                },
            }
        },
        InstallState::AwaitMods => {
            match event {
                InstallEvent::ModsFailed { message } => fail_transition(version, message),
                InstallEvent::ModsProgress { done, total, detail } => {
                    let sp = fraction_bp(done, total);
                    let mut actions: Vec<InstallAction> = Vec::new();
                    actions.push(
                        InstallAction::EmitProgress(
                            progress_record(
                                version,
                                INSTALL_STEPS,
                                5,
                                "Install Mods",
                                sp,
                                detail,
                                None,
                                None,
                                Some(done),
                                Some(total),
                            ),
                        ),
                    );
                    InstallTransition { next: InstallState::AwaitMods, actions }
                },
                InstallEvent::ModsDone => {
                    let mut actions: Vec<InstallAction> = Vec::new();
                    actions.push(
                        InstallAction::EmitProgress(
                            progress_record(
                                version,
                                INSTALL_STEPS,
                                5,
                                "Install Mods",
                                PROGRESS_SCALE,
                                Some("Mods installed".to_owned()),
                                None,
                                None,
                                None,
                                None,
                            ),
                        ),
                    );
                    actions.push(
                        InstallAction::EmitFinished(
                            TaskFinishedPayload { version, path: install_path.to_owned() },
                        ),
                    );
                    InstallTransition { next: InstallState::Done, actions }
                },
                _ => {
                    proof {
                        assert(false);
                    }
                    InstallTransition { next: InstallState::Failed, actions: Vec::new() }
                },
            }
        },
        InstallState::Done => {
            proof {
                assert(false);
            }
            InstallTransition { next: InstallState::Failed, actions: Vec::new() }
        },
        InstallState::Failed => {
            proof {
                assert(false);
            }
            InstallTransition { next: InstallState::Failed, actions: Vec::new() }
        },
    }
}

/// A terminal state accepts no further event, so after the step that
/// emitted `EmitFinished` or `EmitError` the run is over: no second terminal
/// record can follow.
pub proof fn lemma_terminal_state_accepts_no_event(state: InstallState, event: InstallEvent)
    requires
        state is Done || state is Failed,
    ensures
        !spec_event_fits(state, event),
{
}

/// The single-error transition shared by every failure path.
fn fail_transition(version: u32, message: String) -> (r: InstallTransition)
    ensures
        spec_fail_only(r, version, message@),
        spec_has_error(r.actions@),
        !spec_has_finished(r.actions@),
{
    let mut actions: Vec<InstallAction> = Vec::new();
    actions.push(InstallAction::EmitError(TaskErrorPayload { version, message }));
    InstallTransition { next: InstallState::Failed, actions }
}

} // verus!
