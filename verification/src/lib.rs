//! Artifact pipeline for packaging a native static library, built for several
//! Apple platform/architecture targets, into distributable framework bundles.
//!
//! The pipeline enumerates a platform-by-architecture build matrix, resolves
//! each target to the SDK and deployment triple the toolchain needs, plans the
//! per-target build and bundle-synthesis steps, merges per-architecture
//! bundles into platform-level ones, and assembles a multi-platform umbrella
//! container per library. Directory-shaped artifacts are modelled as value
//! trees so the merge and derivation rules can be stated and proved exactly;
//! the process and filesystem work itself is carried out by a thin driver
//! around this crate.

pub mod args;
pub mod bundle;
pub mod cargo;
pub mod cmd;
pub mod error;
pub mod example;
pub mod frameworks;
pub mod matrix;
pub mod meta;
pub mod names;
pub mod plan;
pub mod podspec;
pub mod publish;
pub mod steps;
pub mod strutil;
pub mod subtree;
pub mod tree;
pub mod workspace;
