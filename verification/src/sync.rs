use vstd::prelude::*;
use crate::mod_config::{ModsConfig, ModTask, compatible_mod_tasks, spec_mod_tasks};
use crate::progress::{
    PROGRESS_SCALE, TaskErrorPayload, TaskFinishedPayload, TaskProgressPayload, fraction_bp,
    progress_record, spec_fraction_bp, spec_overall,
};

verus! {

/// The additive-update pipeline has two steps: config sync and mods sync.
pub const SYNC_STEPS: u32 = 2;

/// Where an additive-update run stands. `Done`, `Skipped` and `Failed` are
/// terminal; no event is accepted there. `Skipped` is the silent no-op: no
/// install exists, or the manifest counter is unchanged.
pub enum SyncState {
    Idle,
    AwaitConfigZip { game_version: u32, remote_version: u32, mods: ModsConfig },
    AwaitLink { game_version: u32, remote_version: u32, mods: ModsConfig },
    AwaitExtract { game_version: u32, remote_version: u32, mods: ModsConfig },
    AwaitMods { game_version: u32, remote_version: u32 },
    Done,
    Skipped,
    Failed,
}

/// What the surrounding runner reports back to the machine.
pub enum SyncEvent {
    /// Everything the entry decision rests on: the latest installed
    /// version, if any, the locally persisted manifest counter, and the
    /// remote counter with its mod set, alias rules applied.
    GateInfo { latest: Option<u32>, local_version: u32, remote_version: u32, mods: ModsConfig },
    ConfigZipDownloaded,
    ConfigZipFailed { message: String },
    Linked,
    LinkFailed { message: String },
    ExtractProgress { done: u64, total: u64, name: Option<String> },
    Extracted,
    ExtractFailed { message: String },
    ModsProgress { done: u64, total: u64, detail: Option<String> },
    ModsDone,
    ModsFailed { message: String },
}

/// What the runner must do next.
pub enum SyncAction {
    EmitProgress(TaskProgressPayload),
    /// Fetch the default-config package into the temporary archive path.
    DownloadConfigZip,
    /// Establish the shared-config link on the latest installed version.
    EnsureSharedLink,
    /// Extract the archive additively into the shared config directory,
    /// never overwriting an existing file.
    ExtractConfigArchive,
    DeleteConfigArchive,
    InstallMods { tasks: Vec<ModTask> },
    /// Persist the freshly applied manifest counter; issued only on success.
    WriteManifestState { manifest_version: u32 },
    EmitFinished(TaskFinishedPayload),
    EmitError(TaskErrorPayload),
}

pub struct SyncTransition {
    pub next: SyncState,
    pub actions: Vec<SyncAction>,
}

/// Which events may arrive in which state.
pub open spec fn spec_sync_event_fits(state: SyncState, event: SyncEvent) -> bool {
    match state {
        SyncState::Idle => event is GateInfo,
        SyncState::AwaitConfigZip { .. } => event is ConfigZipDownloaded
            || event is ConfigZipFailed,
        SyncState::AwaitLink { .. } => event is Linked || event is LinkFailed,
        SyncState::AwaitExtract { .. } => event is ExtractProgress || event is Extracted
            || event is ExtractFailed,
        SyncState::AwaitMods { .. } => event is ModsProgress || event is ModsDone
            || event is ModsFailed,
        SyncState::Done => false,
        SyncState::Skipped => false,
        SyncState::Failed => false,
    }
}

pub open spec fn spec_sync_has_finished(actions: Seq<SyncAction>) -> bool {
    exists|i: int| 0 <= i < actions.len() && actions[i] is EmitFinished
}

pub open spec fn spec_sync_has_error(actions: Seq<SyncAction>) -> bool {
    exists|i: int| 0 <= i < actions.len() && actions[i] is EmitError
}

pub open spec fn spec_sync_has_state_write(actions: Seq<SyncAction>) -> bool {
    exists|i: int| 0 <= i < actions.len() && actions[i] is WriteManifestState
}

/// Any action that touches the filesystem or local state; progress and
/// terminal records are pure reporting.
pub open spec fn spec_sync_mutating(a: SyncAction) -> bool {
    ||| a is DownloadConfigZip
    ||| a is EnsureSharedLink
    ||| a is ExtractConfigArchive
    ||| a is DeleteConfigArchive
    ||| a is InstallMods
    ||| a is WriteManifestState
}

/// One progress record of the sync pipeline, as an action.
pub open spec fn spec_sync_progress_action(
    a: SyncAction,
    version: u32,
    step: u32,
    name: Seq<char>,
    sp: u32,
) -> bool {
    a matches SyncAction::EmitProgress(p) && p.version == version && p.steps_total == SYNC_STEPS
        && p.step == step && p.step_name@ == name && p.step_progress == sp && p.overall_percent
        == spec_overall(step, sp, SYNC_STEPS)
}

/// A failing transition: the single terminal error record, nothing else: in
/// particular no `WriteManifestState`, so the counter keeps its prior value
/// and the next run retries both steps.
pub open spec fn spec_sync_fail_only(r: SyncTransition, version: u32, message: Seq<char>) -> bool {
    &&& r.next is Failed
    &&& r.actions@.len() == 1
    &&& (r.actions@[0] matches SyncAction::EmitError(e) && e.version == version && e.message@
        == message)
}

/// One step of the additive-update state machine. The run skips silently,
/// with no mutating action and no record at all, when nothing is installed
/// or the remote counter equals the persisted one; the counter is persisted
/// only on the success transition, never on a failure.
pub fn sync_step(state: SyncState, event: SyncEvent, game_root: &str) -> (r: SyncTransition)
    requires
        spec_sync_event_fits(state, event),
    ensures
        spec_sync_has_finished(r.actions@) <==> r.next is Done,
        spec_sync_has_error(r.actions@) <==> r.next is Failed,
        spec_sync_has_state_write(r.actions@) ==> event is ModsDone,
        event matches SyncEvent::GateInfo { latest, local_version, remote_version, mods }
            ==> spec_skip_decision(r, latest, local_version, remote_version, mods),
        event matches SyncEvent::GateInfo { latest, local_version, remote_version, mods } ==> {
            &&& (latest is None || local_version == remote_version) ==> {
                &&& r.next is Skipped
                &&& r.actions@.len() == 0
            }
            &&& latest matches Some(gv) ==> local_version != remote_version ==> {
                &&& (r.next matches SyncState::AwaitConfigZip {
                    game_version,
                    remote_version: rv,
                    mods: m2,
                } && game_version == gv && rv == remote_version && m2 == mods)
                &&& r.actions@.len() == 2
                &&& spec_sync_progress_action(r.actions@[0], gv, 1, "Sync Config"@, 0)
                &&& (r.actions@[0] matches SyncAction::EmitProgress(p) && p.detail matches Some(d)
                    && d@ == "Downloading default_config.zip..."@ && p.extracted_files == Some(
                    0u64,
                ))
                &&& r.actions@[1] is DownloadConfigZip
            }
        },
        state matches SyncState::AwaitConfigZip { game_version, remote_version, mods } ==> {
            &&& (event is ConfigZipDownloaded ==> {
                &&& (r.next matches SyncState::AwaitLink {
                    game_version: gv,
                    remote_version: rv,
                    mods: m2,
                } && gv == game_version && rv == remote_version && m2 == mods)
                &&& r.actions@.len() == 1
                &&& r.actions@[0] is EnsureSharedLink
            })
            &&& (event matches SyncEvent::ConfigZipFailed { message } ==> spec_sync_fail_only(
                r,
                game_version,
                message@,
            ))
        },
        state matches SyncState::AwaitLink { game_version, remote_version, mods } ==> {
            &&& (event is Linked ==> {
                &&& (r.next matches SyncState::AwaitExtract {
                    game_version: gv,
                    remote_version: rv,
                    mods: m2,
                } && gv == game_version && rv == remote_version && m2 == mods)
                &&& r.actions@.len() == 1
                &&& r.actions@[0] is ExtractConfigArchive
            })
            &&& (event matches SyncEvent::LinkFailed { message } ==> spec_sync_fail_only(
                r,
                game_version,
                message@,
            ))
        },
        state matches SyncState::AwaitExtract { game_version, remote_version, mods } ==> {
            &&& (event matches SyncEvent::ExtractProgress { done, total, name } ==> {
                &&& (r.next matches SyncState::AwaitExtract {
                    game_version: gv,
                    remote_version: rv,
                    mods: m2,
                } && gv == game_version && rv == remote_version && m2 == mods)
                &&& r.actions@.len() == 1
                &&& spec_sync_progress_action(
                    r.actions@[0],
                    game_version,
                    1,
                    "Sync Config"@,
                    spec_fraction_bp(done, total) as u32,
                )
                &&& (r.actions@[0] matches SyncAction::EmitProgress(p) && p.extracted_files
                    == Some(done) && p.total_files == Some(total) && p.detail == name)
            })
            &&& (event is Extracted ==> {
                &&& (r.next matches SyncState::AwaitMods { game_version: gv, remote_version: rv }
                    && gv == game_version && rv == remote_version)
                &&& r.actions@.len() == 3
                &&& r.actions@[0] is DeleteConfigArchive
                &&& spec_sync_progress_action(r.actions@[1], game_version, 2, "Sync Mods"@, 0)
                &&& (r.actions@[1] matches SyncAction::EmitProgress(p) && p.detail matches Some(d)
                    && d@ == "Applying manifest..."@ && p.extracted_files == Some(0u64)
                    && p.total_files == Some(mods.mods@.len() as u64))
                &&& (r.actions@[2] matches SyncAction::InstallMods { tasks } && tasks@
                    == spec_mod_tasks(mods.mods@, game_version))
            })
            &&& (event matches SyncEvent::ExtractFailed { message } ==> spec_sync_fail_only(
                r,
                game_version,
                message@,
            ))
        },
        state matches SyncState::AwaitMods { game_version, remote_version } ==> {
            &&& (event matches SyncEvent::ModsProgress { done, total, detail } ==> {
                &&& (r.next matches SyncState::AwaitMods { game_version: gv, remote_version: rv }
                    && gv == game_version && rv == remote_version)
                &&& r.actions@.len() == 1
                &&& spec_sync_progress_action(
                    r.actions@[0],
                    game_version,
                    2,
                    "Sync Mods"@,
                    spec_fraction_bp(done, total) as u32,
                )
                &&& (r.actions@[0] matches SyncAction::EmitProgress(p) && p.extracted_files
                    == Some(done) && p.total_files == Some(total) && p.detail == detail)
            })
            &&& (event is ModsDone ==> {
                &&& r.next is Done
                &&& r.actions@.len() == 3
                &&& spec_sync_progress_action(
                    r.actions@[0],
                    game_version,
                    2,
                    "Sync Mods"@,
                    PROGRESS_SCALE,
                )
                &&& (r.actions@[0] matches SyncAction::EmitProgress(p) && p.detail matches Some(d)
                    && d@ == "Sync complete"@ && p.extracted_files is None && p.total_files
                    is None)
                &&& (r.actions@[1] matches SyncAction::WriteManifestState { manifest_version }
                    && manifest_version == remote_version)
                &&& (r.actions@[2] matches SyncAction::EmitFinished(f) && f.version == game_version
                    && f.path@ == game_root@)
            })
            &&& (event matches SyncEvent::ModsFailed { message } ==> spec_sync_fail_only(
                r,
                game_version,
                message@,
            ))
        },
{
    match state {
        SyncState::Idle => {
            match event {
                SyncEvent::GateInfo { latest, local_version, remote_version, mods } => {
                    match latest {
                        None => SyncTransition { next: SyncState::Skipped, actions: Vec::new() },
                        Some(gv) => {
                            if local_version == remote_version {
                                SyncTransition { next: SyncState::Skipped, actions: Vec::new() }
                            } else {
                                let mut actions: Vec<SyncAction> = Vec::new();
                                actions.push(
                                    SyncAction::EmitProgress(
                                        progress_record(
                                            gv,
                                            SYNC_STEPS,
                                            1,
                                            "Sync Config",
                                            0,
                                            Some("Downloading default_config.zip...".to_owned()),
                                            None,
                                            None,
                                            Some(0),
                                            None,
                                        ),
                                    ),
                                );
                                actions.push(SyncAction::DownloadConfigZip);
                                SyncTransition {
                                    next: SyncState::AwaitConfigZip {
                                        game_version: gv,
                                        remote_version,
                                        mods,
                                    },
                                    actions,
                                }
                            }
                        },
                    }
                },
                _ => {
                    proof {
                        assert(false);
                    }
                    SyncTransition { next: SyncState::Failed, actions: Vec::new() }
                },
            }
        },
        SyncState::AwaitConfigZip { game_version, remote_version, mods } => {
            match event {
                SyncEvent::ConfigZipFailed { message } => sync_fail(game_version, message),
                SyncEvent::ConfigZipDownloaded => {
                    let mut actions: Vec<SyncAction> = Vec::new();
                    actions.push(SyncAction::EnsureSharedLink);
                    SyncTransition {
                        next: SyncState::AwaitLink { game_version, remote_version, mods },
                        actions,
                    }
                },
                _ => {
                    proof {
                        assert(false);
                    }
                    SyncTransition { next: SyncState::Failed, actions: Vec::new() }
                },
            }
        },
        SyncState::AwaitLink { game_version, remote_version, mods } => {
            match event {
                SyncEvent::LinkFailed { message } => sync_fail(game_version, message),
                SyncEvent::Linked => {
                    let mut actions: Vec<SyncAction> = Vec::new();
                    actions.push(SyncAction::ExtractConfigArchive);
                    SyncTransition {
                        next: SyncState::AwaitExtract { game_version, remote_version, mods },
                        actions,
                    }
                },
                _ => {
                    proof {
                        assert(false);
                    }
                    SyncTransition { next: SyncState::Failed, actions: Vec::new() }
                },
            }
        },
        SyncState::AwaitExtract { game_version, remote_version, mods } => {
            match event {
                SyncEvent::ExtractFailed { message } => sync_fail(game_version, message),
                SyncEvent::ExtractProgress { done, total, name } => {
                    let sp = fraction_bp(done, total);
                    let mut actions: Vec<SyncAction> = Vec::new();
                    actions.push(
                        SyncAction::EmitProgress(
                            progress_record(
                                game_version,
                                SYNC_STEPS,
                                1,
                                "Sync Config",
                                sp,
                                name,
                                None,
                                None,
                                Some(done),
                                Some(total),
                            ),
                        ),
                    );
                    SyncTransition {
                        next: SyncState::AwaitExtract { game_version, remote_version, mods },
                        actions,
                    }
                },
                SyncEvent::Extracted => {
                    let total_mods = mods.mods.len() as u64;
                    let tasks = compatible_mod_tasks(&mods, game_version);
                    let mut actions: Vec<SyncAction> = Vec::new();
                    actions.push(SyncAction::DeleteConfigArchive);
                    actions.push(
                        SyncAction::EmitProgress(
                            progress_record(
                                game_version,
                                SYNC_STEPS,
                                2,
                                "Sync Mods",
                                0,
                                Some("Applying manifest...".to_owned()),
                                None,
                                None,
                                Some(0),
                                Some(total_mods),
                            ),
                        ),
                    );
                    actions.push(SyncAction::InstallMods { tasks });
                    SyncTransition {
                        next: SyncState::AwaitMods { game_version, remote_version },
                        actions,
                    }
                },
                _ => {
                    proof {
                        assert(false);
                    }
                    SyncTransition { next: SyncState::Failed, actions: Vec::new() }
                },
            }
        },
        SyncState::AwaitMods { game_version, remote_version } => {
            match event {
                SyncEvent::ModsFailed { message } => sync_fail(game_version, message),
                SyncEvent::ModsProgress { done, total, detail } => {
                    let sp = fraction_bp(done, total);
                    let mut actions: Vec<SyncAction> = Vec::new();
                    actions.push(
                        SyncAction::EmitProgress(
                            progress_record(
                                game_version,
                                SYNC_STEPS,
                                2,
                                "Sync Mods",
                                sp,
                                detail,
                                None,
                                None,
                                Some(done),
                                Some(total),
                            ),
                        ),
                    );
                    SyncTransition {
                        next: SyncState::AwaitMods { game_version, remote_version },
                        actions,
                    }
                },
                SyncEvent::ModsDone => {
                    let mut actions: Vec<SyncAction> = Vec::new();
                    actions.push(
                        SyncAction::EmitProgress(
                            progress_record(
                                game_version,
                                SYNC_STEPS,
                                2,
                                "Sync Mods",
                                PROGRESS_SCALE,
                                Some("Sync complete".to_owned()),
                                None,
                                None,
                                None,
                                None,
                            ),
                        ),
                    );
                    actions.push(
                        SyncAction::WriteManifestState { manifest_version: remote_version },
                    );
                    actions.push(
                        SyncAction::EmitFinished(
                            TaskFinishedPayload { version: game_version, path: game_root.to_owned() },
                        ),
                    );
                    SyncTransition { next: SyncState::Done, actions }
                },
                _ => {
                    proof {
                        assert(false);
                    }
                    SyncTransition { next: SyncState::Failed, actions: Vec::new() }
                },
            }
        },
        SyncState::Done => {
            proof {
                assert(false);
            }
            SyncTransition { next: SyncState::Failed, actions: Vec::new() }
        },
        SyncState::Skipped => {
            proof {
                assert(false);
            }
            SyncTransition { next: SyncState::Failed, actions: Vec::new() }
        },
        SyncState::Failed => {
            proof {
                assert(false);
            }
            SyncTransition { next: SyncState::Failed, actions: Vec::new() }
        },
    }
}

/// A terminal state accepts no further event: a run emits at most one
/// terminal record, and a skipped run emits none.
pub proof fn lemma_sync_terminal_state_accepts_no_event(state: SyncState, event: SyncEvent)
    requires
        state is Done || state is Skipped || state is Failed,
    ensures
        !spec_sync_event_fits(state, event),
{
}

/// The single-error transition shared by every failure path.
fn sync_fail(version: u32, message: String) -> (r: SyncTransition)
    ensures
        spec_sync_fail_only(r, version, message@),
        spec_sync_has_error(r.actions@),
        !spec_sync_has_finished(r.actions@),
        !spec_sync_has_state_write(r.actions@),
{
    let mut actions: Vec<SyncAction> = Vec::new();
    actions.push(SyncAction::EmitError(TaskErrorPayload { version, message }));
    SyncTransition { next: SyncState::Failed, actions }
}

/// An unchanged manifest counter syncs nothing: the entry transition holds
/// no action at all: no filesystem mutation, no state write, no record.
pub proof fn lemma_unchanged_manifest_syncs_nothing(
    r: SyncTransition,
    latest: Option<u32>,
    counter: u32,
    mods: ModsConfig,
)
    requires
        latest is Some,
        spec_skip_decision(r, latest, counter, counter, mods),
    ensures
        r.next is Skipped,
        forall|i: int| 0 <= i < r.actions@.len() ==> !spec_sync_mutating(r.actions@[i]),
        !spec_sync_has_state_write(r.actions@),
        !spec_sync_has_finished(r.actions@),
        !spec_sync_has_error(r.actions@),
{
}

/// The entry decision's guarantee, as a predicate over plain values, so
/// that laws can speak of it.
pub open spec fn spec_skip_decision(
    r: SyncTransition,
    latest: Option<u32>,
    local_version: u32,
    remote_version: u32,
    mods: ModsConfig,
) -> bool {
    (latest is None || local_version == remote_version) ==> (r.next is Skipped && r.actions@.len()
        == 0)
}

} // verus!
