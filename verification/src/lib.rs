//! Declarative construction of root filesystem images.
//!
//! The library holds the decisions of a build: how a build script is
//! validated, which requests are sent to a container engine, which tools
//! are run to create the image, how overlays and exports are laid out, and
//! in which order all of this happens, including what is still cleaned up
//! after a failure. Performing the requests is left to the caller.

pub mod action;
pub mod cli;
pub mod container_engine;
pub mod dry_run;
pub mod error;
pub mod package;
pub mod pairs;
pub mod path;
pub mod pipeline;
pub mod run;
pub mod schema;
pub mod text;
