//! Scaffolding for new project directories.
//!
//! The library is the deterministic core of a project-scaffolding tool: a
//! declarative builder for development-environment descriptors, its renderer
//! (a pure function from builder state to descriptor text with a fixed
//! grammar and indentation scheme), and the planning step of the scaffolding
//! protocol, which validates a project name, resolves the target directory,
//! and lays out the exact sequence of directories and create-only file writes
//! for each project kind.  Filesystem access, subprocess handoff and
//! command-line parsing live outside the library and consume plain values.

pub mod util;
pub mod nix;
pub mod scaffold;
pub mod generic;
pub mod python;
pub mod rust;
