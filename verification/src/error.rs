//! The library's error kinds.

use vstd::prelude::*;

verus! {

/// Why a pipeline step failed.
///
/// Resolution failures carry the offending package name; a parse failure
/// carries the external parser's diagnostic.
#[derive(Debug, PartialEq)]
pub enum PackError {
    /// No workspace member bears the requested name.
    UnknownPackage(String),
    /// Two or more workspace members bear the requested name.
    AmbiguousPackage(String),
    /// No package name was requested and the workspace has no default member.
    NoCurrentPackage,
    /// The manifest text was rejected by the parser; the message is the
    /// parser's own.
    ManifestParse(String),
    /// The requested path is absent from an otherwise valid manifest.
    MetadataNotFound,
    /// The subtree at the requested path does not have the expected shape.
    DecodeShape,
}

} // verus!
