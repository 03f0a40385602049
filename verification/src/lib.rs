//! A package installer for Gleam command-line programs.
//!
//! The crate models the acquisition-and-deployment pipeline of the
//! `gleam-pkg` tool: resolving the latest release of a package from the
//! Hex registry, downloading and unpacking its two-level release archive,
//! orchestrating the external build toolchain, and packaging the build
//! output as a self-contained launcher script registered under a managed
//! directory tree.
//!
//! All decisions of the pipeline live here, verified; the surrounding
//! binary performs the actual network, filesystem and subprocess work and
//! feeds the outcomes back in as [`pipeline::Event`] values.

pub mod error;
pub mod launcher;
pub mod paths;
pub mod pipeline;
pub mod registry;
pub mod shell;
pub mod strutil;

pub use error::GleamPkgError;
pub use pipeline::{install_package, Action, Event, Pipeline, Stage};
pub use registry::{Config, RegistryMetadata, ReleaseEntry};
