//! Infrastructure for `pack`-style tooling built around package manifests.
//!
//! A manifest is parsed into a generic [`value::ValueTree`]; a nested
//! location inside the tree is addressed by a path of string segments and
//! extracted by [`lookup::lookup`]; the recognized packaging metadata block
//! is decoded into a [`config::PackConfig`]; and [`pack::CargoPack`] bundles
//! a resolved workspace with the decoded configuration.

pub mod config;
pub mod error;
pub mod lookup;
pub mod pack;
pub mod parse;
pub mod value;
pub mod workspace;

pub use config::PackConfig;
pub use error::PackError;
pub use pack::CargoPack;
pub use value::ValueTree;
pub use workspace::{Member, Workspace};

