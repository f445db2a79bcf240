use vstd::prelude::*;
use crate::fs_model::{DirTree, copy_dir_add_only, lemma_merge_wf, spec_add_only_merge};

verus! {

/// What occupies a game version's per-version config path. Directory
/// identities are plain numbers: the caller names the shared configuration
/// directory by its identity, and a link records which directory it resolves
/// to.
pub enum ConfigPathState {
    /// Nothing exists at the path.
    Absent,
    /// A directory link (junction or symlink) pointing at directory `target`.
    LinkTo { target: u64 },
    /// A genuine directory with its own files.
    RealDir { tree: DirTree },
    /// A regular file occupies the path.
    PlainFile,
}

/// The outcome of establishing the shared-config link.
pub struct LinkOutcome {
    /// What the per-version config path holds afterwards.
    pub state: ConfigPathState,
    /// How many files were migrated into the shared directory.
    pub moved: usize,
    /// True when directory links are unavailable and a plain directory was
    /// created instead: cross-version sharing is lost and must be surfaced.
    pub degraded: bool,
}

impl ConfigPathState {
    pub open spec fn is_linked_to(self, id: u64) -> bool {
        self matches ConfigPathState::LinkTo { target } && target == id
    }
}

/// Establishes the one-to-many link from a version's config path to the
/// shared configuration directory, migrating a pre-existing genuine directory
/// additively into the shared store first.
///
/// Calling this again on an already-linked path is a no-op: nothing moves and
/// the shared tree is untouched.
pub fn ensure_link(
    state: ConfigPathState,
    shared: &mut DirTree,
    shared_id: u64,
    links_supported: bool,
) -> (r: LinkOutcome)
    requires
        old(shared).wf(),
    ensures
        final(shared).wf(),
        state.is_linked_to(shared_id) ==> {
            &&& *final(shared) == *old(shared)
            &&& r.moved == 0
            &&& r.state == state
            &&& !r.degraded
        },
        state matches ConfigPathState::RealDir { tree } ==> {
            &&& final(shared)@ == spec_add_only_merge(tree@, old(shared)@)
            &&& r.moved == final(shared)@.len() - old(shared)@.len()
        },
        !(state is RealDir) ==> (*final(shared) == *old(shared) && r.moved == 0),
        links_supported ==> r.state.is_linked_to(shared_id) && !r.degraded,
        !links_supported && !state.is_linked_to(shared_id) ==> r.degraded && (r.state matches
            ConfigPathState::RealDir { tree } && tree@.len() == 0),
{
    match state {
        ConfigPathState::LinkTo { target } => {
            if target == shared_id {
                // Already canonically resolving to the shared directory.
                return LinkOutcome {
                    state: ConfigPathState::LinkTo { target },
                    moved: 0,
                    degraded: false,
                };
            }
            // A link elsewhere: only the link itself is removed, never its
            // target, and the fresh link is created in its place.
            make_link(shared_id, links_supported, 0)
        },
        ConfigPathState::RealDir { tree } => {
            // A genuine directory: migrate its files into the shared store
            // additively, then replace the directory with the link.
            let moved = copy_dir_add_only(&tree, shared);
            proof {
                lemma_merge_wf(tree@, old(shared)@);
            }
            make_link(shared_id, links_supported, moved)
        },
        ConfigPathState::PlainFile => {
            // An unexpected regular file: it is deleted, then linked over.
            make_link(shared_id, links_supported, 0)
        },
        ConfigPathState::Absent => make_link(shared_id, links_supported, 0),
    }
}

/// The final linking step: a directory link where the platform offers one,
/// else a plain directory, surfaced as degraded mode.
fn make_link(shared_id: u64, links_supported: bool, moved: usize) -> (r: LinkOutcome)
    ensures
        r.moved == moved,
        links_supported ==> r.state.is_linked_to(shared_id) && !r.degraded,
        !links_supported ==> r.degraded && (r.state matches ConfigPathState::RealDir { tree }
            && tree@.len() == 0),
{
    if links_supported {
        LinkOutcome { state: ConfigPathState::LinkTo { target: shared_id }, moved, degraded: false }
    } else {
        LinkOutcome { state: ConfigPathState::RealDir { tree: DirTree::new() }, moved, degraded: true }
    }
}

} // verus!
