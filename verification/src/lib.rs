//! Verified core of a build-orchestration tool: workspace configuration
//! parsing, build-variant handling, context expansion for configuration
//! templates, environment-map merging, container-bootstrap gating, and
//! task-execution planning.
pub mod commands;
pub mod config;
pub mod context;
pub mod ctxmap;
pub mod envmap;
pub mod error;
pub mod executers;
pub mod jsondoc;
pub mod shell;
pub mod strutil;
pub mod task;
pub mod variant;
pub mod workspace;

pub use error::BError;
