//! Verified core of a modded-game launcher: the decision logic of its
//! installation and synchronization pipelines, stated and proved with Verus.
//!
//! The library is pure: every filesystem tree, link target and download
//! outcome is a plain value, and the two pipelines are state machines whose
//! steps return the actions an unverified runner performs. The contracts pin
//! the mod compatibility and version-pinning rules, the add-only filesystem
//! merge, the shared-config linking, the progress arithmetic, and the
//! persisted manifest counter's codec.

pub mod fs_model;
pub mod install;
pub mod linker;
pub mod mod_config;
pub mod progress;
pub mod state_store;
pub mod sync;
pub mod variable;
pub mod versions;
