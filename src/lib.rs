//! Workspace scaffolding for game projects.
//!
//! A workspace is a directory that holds a `Zeus.toml` descriptor. This
//! library decides how a workspace is created, opened and how its embedded
//! engine copy is refreshed. It works on plain values: the caller observes the
//! disk, hands the observations in, and carries out the filesystem actions
//! that come back.

pub mod descriptor;
pub mod error;
pub mod paths;
pub mod plan;
pub mod project;
pub mod toml_doc;

pub use error::ZeusProjectError;
pub use plan::{FsAction, PlanRun};
pub use project::ZeusProject;
