//! Core logic of an interactive scaffolding tool: directory listing and
//! navigation, idempotent module registration, directory planning, and the
//! text templates the tool emits.  All file-system and terminal work stays
//! with the caller; this crate holds the decisions and the invariants.

pub mod cli;
pub mod ensure;
pub mod generator;
pub mod i18n;
pub mod listing;
pub mod navigate;
pub mod registry;
pub mod text;
