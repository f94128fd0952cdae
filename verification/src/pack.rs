//! The facade: one resolved workspace, one resolved package, one decoded
//! configuration, and a generic re-decode entry point.

use vstd::prelude::*;

use crate::config::{decode_pack_config, spec_pack_config, PackConfig};
use crate::error::PackError;
use crate::lookup::{lookup, spec_lookup};
use crate::parse::{parse_manifest, toml_parse_of};
use crate::value::{string_views, ValueTree};
use crate::workspace::{resolve_member, spec_resolve, Member, Workspace};

verus! {

/// The fixed three-segment path addressing the recognized metadata block
/// beneath a manifest's top level.
pub open spec fn spec_fixed_path() -> Seq<Seq<char>> {
    seq!["package"@, "metadata"@, "pack"@]
}

/// The fixed path as owned segments.
fn fixed_path() -> (r: Vec<String>)
    ensures
        string_views(r@) == spec_fixed_path(),
{
    let mut p: Vec<String> = Vec::new();
    p.push("package".to_owned());
    p.push("metadata".to_owned());
    p.push("pack".to_owned());
    proof {
        assert(string_views(p@) =~= spec_fixed_path());
    }
    p
}

/// How the located metadata block relates to the pipeline's inputs: the
/// member resolves, its manifest text parses, and the fixed path is looked
/// up; `Ok(None)` marks a valid manifest without the block.
pub open spec fn located_post(
    ws: Workspace,
    name: Option<String>,
    r: Result<Option<ValueTree>, PackError>,
) -> bool {
    match spec_resolve(ws.members@, name, ws.current) {
        Result::Err(e) => r == Err::<Option<ValueTree>, PackError>(e),
        Result::Ok(i) => match toml_parse_of(ws.members@[i].manifest_text@) {
            Result::Err(m) => r matches Err(PackError::ManifestParse(s)) && s@ == m,
            Result::Ok(doc) => r == Ok::<Option<ValueTree>, PackError>(
                spec_lookup(doc, spec_fixed_path()),
            ),
        },
    }
}

/// Resolve the member, parse its manifest, and look up the fixed path.
fn locate_metadata(ws: &Workspace, name: &Option<String>) -> (r: Result<
    Option<ValueTree>,
    PackError,
>)
    requires
        ws.wf(),
    ensures
        located_post(*ws, *name, r),
{
    let idx: usize = match resolve_member(&ws.members, name, &ws.current) {
        Ok(i) => i,
        Err(e) => {
            return Err(e);
        },
    };
    let text: &String = &ws.members[idx].manifest_text;
    match parse_manifest(text.as_str()) {
        Ok(doc) => {
            let path = fixed_path();
            Ok(lookup(doc, &path))
        },
        Err(m) => Err(PackError::ManifestParse(m)),
    }
}

/// The facade over one workspace: the requested package name and the decoded
/// recognized configuration, computed once at construction.
pub struct CargoPack {
    ws: Workspace,
    package_name: Option<String>,
    pack_config: PackConfig,
}

/// What construction yields, step by step: resolution and parse errors
/// surface; an absent metadata block is not an error and yields the
/// all-unspecified configuration; a present block must decode.
pub open spec fn new_post(
    ws: Workspace,
    name: Option<String>,
    r: Result<CargoPack, PackError>,
) -> bool {
    match spec_resolve(ws.members@, name, ws.current) {
        Result::Err(e) => r == Err::<CargoPack, PackError>(e),
        Result::Ok(i) => match toml_parse_of(ws.members@[i].manifest_text@) {
            Result::Err(m) => r matches Err(PackError::ManifestParse(s)) && s@ == m,
            Result::Ok(doc) => match spec_lookup(doc, spec_fixed_path()) {
                Option::None => r matches Ok(p) && p.spec_ws() == ws && p.spec_package_name()
                    == name && p.spec_config().files is None
                    && p.spec_config().default_packers is None,
                Option::Some(v) => match spec_pack_config(v) {
                    Option::None => r == Err::<CargoPack, PackError>(PackError::DecodeShape),
                    Option::Some(m) => r matches Ok(p) && p.spec_ws() == ws
                        && p.spec_package_name() == name && p.spec_config().files_view() == m.0
                        && p.spec_config().default_packers_view() == m.1,
                },
            },
        },
    }
}

/// What the generic decode yields: the subtree at the fixed path, an error
/// naming the failing step, or `MetadataNotFound` for an absent block.
pub open spec fn decode_post(p: CargoPack, r: Result<ValueTree, PackError>) -> bool {
    match spec_resolve(p.spec_ws().members@, p.spec_package_name(), p.spec_ws().current) {
        Result::Err(e) => r == Err::<ValueTree, PackError>(e),
        Result::Ok(i) => match toml_parse_of(p.spec_ws().members@[i].manifest_text@) {
            Result::Err(m) => r matches Err(PackError::ManifestParse(s)) && s@ == m,
            Result::Ok(doc) => match spec_lookup(doc, spec_fixed_path()) {
                Option::Some(v) => r == Ok::<ValueTree, PackError>(v),
                Option::None => r == Err::<ValueTree, PackError>(PackError::MetadataNotFound),
            },
        },
    }
}

impl CargoPack {
    /// The facade's workspace is well formed.
    #[verifier::type_invariant]
    pub closed spec fn inv(self) -> bool {
        self.ws.wf()
    }

    /// The workspace the facade owns.
    pub closed spec fn spec_ws(self) -> Workspace {
        self.ws
    }

    /// The package name construction was given, if any.
    pub closed spec fn spec_package_name(self) -> Option<String> {
        self.package_name
    }

    /// The configuration decoded at construction.
    pub closed spec fn spec_config(self) -> PackConfig {
        self.pack_config
    }

    /// Build the facade: resolve the package, parse its manifest, look up
    /// the recognized metadata block, and decode it, eagerly; a manifest
    /// without the block yields a configuration with every field
    /// unspecified.
    pub fn new(ws: Workspace, package_name: Option<String>) -> (r: Result<CargoPack, PackError>)
        requires
            ws.wf(),
        ensures
            new_post(ws, package_name, r),
    {
        match locate_metadata(&ws, &package_name) {
            Err(e) => Err(e),
            Ok(None) => Ok(
                CargoPack {
                    ws,
                    package_name,
                    pack_config: PackConfig { files: None, default_packers: None },
                },
            ),
            Ok(Some(v)) => match decode_pack_config(v) {
                Ok(c) => Ok(CargoPack { ws, package_name, pack_config: c }),
                Err(e) => Err(e),
            },
        }
    }

    /// The workspace the facade operates on.
    pub fn ws(&self) -> (r: &Workspace)
        ensures
            *r == self.spec_ws(),
    {
        &self.ws
    }

    /// The configuration decoded at construction.
    pub fn config(&self) -> (r: &PackConfig)
        ensures
            *r == self.spec_config(),
    {
        &self.pack_config
    }

    /// Re-resolve and return the facade's package: the member named at
    /// construction, or the workspace's default member when none was.
    pub fn package(&self) -> (r: Result<&Member, PackError>)
        ensures
            spec_resolve(
                self.spec_ws().members@,
                self.spec_package_name(),
                self.spec_ws().current,
            ) matches Ok(i) ==> r matches Ok(m) && *m == self.spec_ws().members@[i],
            spec_resolve(
                self.spec_ws().members@,
                self.spec_package_name(),
                self.spec_ws().current,
            ) matches Err(e) ==> r matches Err(e2) && e2 == e,
    {
        proof {
            use_type_invariant(&*self);
        }
        match resolve_member(&self.ws.members, &self.package_name, &self.ws.current) {
            Ok(j) => Ok(&self.ws.members[j]),
            Err(e) => Err(e),
        }
    }

    /// The configured `files`, with "unspecified" collapsed to the empty
    /// list for the caller's convenience.
    pub fn files(&self) -> (r: Vec<String>)
        ensures
            self.spec_config().files matches Some(v) ==> r@ == v@,
            self.spec_config().files is None ==> r@ == Seq::<String>::empty(),
    {
        match &self.pack_config.files {
            Some(v) => {
                let mut out: Vec<String> = Vec::new();
                let mut j: usize = 0;
                while j < v.len()
                    invariant
                        j <= v@.len(),
                        out@ == v@.take(j as int),
                    decreases v@.len() - j,
                {
                    out.push(v[j].clone());
                    proof {
                        assert(out@ =~= v@.take(j + 1));
                    }
                    j = j + 1;
                }
                proof {
                    assert(v@.take(j as int) =~= v@);
                }
                out
            },
            None => Vec::new(),
        }
    }

    /// Re-run the pipeline against the fixed recognized-metadata path and
    /// return the subtree there; with no block present this is the
    /// `MetadataNotFound` error, since the caller asked for that location.
    pub fn decode_from_manifest(&self) -> (r: Result<ValueTree, PackError>)
        ensures
            decode_post(*self, r),
    {
        proof {
            use_type_invariant(&*self);
        }
        match locate_metadata(&self.ws, &self.package_name) {
            Ok(Some(v)) => Ok(v),
            Ok(None) => Err(PackError::MetadataNotFound),
            Err(e) => Err(e),
        }
    }
}

/// The generic decode is deterministic: against one facade state two runs
/// succeed or fail together, and agree on success — the facade owns the
/// manifest text, and parsing and lookup are functions of that text.
pub proof fn lemma_decode_from_manifest_deterministic(
    p: CargoPack,
    r1: Result<ValueTree, PackError>,
    r2: Result<ValueTree, PackError>,
)
    requires
        decode_post(p, r1),
        decode_post(p, r2),
    ensures
        r1 is Ok <==> r2 is Ok,
        r1 is Ok ==> r1 == r2,
{
}

} // verus!
