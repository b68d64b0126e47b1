//! Decisions of the macOS service: installing, updating and looking at sessions.
pub mod displays;
pub mod dmg_update;
pub mod identity;
pub mod install;
pub mod plists;
pub mod root_update;
pub mod sessions;
pub mod update_body;
pub mod update_script;
pub mod update_tree;
