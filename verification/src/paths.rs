//! Canonical on-disk locations for a program's build outputs and for the
//! version-addressed archived copies of those outputs.

use vstd::prelude::*;
use crate::version::{Version, VersionV, version_rep};

verus! {

/// Paths of the latest local build output of a program, independent of any
/// version: the compiled binary, the program-id keypair, and the interface
/// description.
pub struct ProgramPaths {
    pub bin: String,
    pub id: String,
    pub idl: String,
}

/// Paths of the archived copy of one version's outputs, under
/// `artifacts/<program>/<version>/`. Their presence on disk is the marker
/// that the version was already published from this workspace.
pub struct ArtifactPaths {
    pub dir: String,
    pub bin: String,
    pub id: String,
    pub idl: String,
}

pub open spec fn program_bin_path(program: Seq<char>) -> Seq<char> {
    "target/deploy/"@ + program + ".so"@
}

pub open spec fn program_id_path(program: Seq<char>) -> Seq<char> {
    "target/deploy/"@ + program + "-keypair.json"@
}

pub open spec fn program_idl_path(program: Seq<char>) -> Seq<char> {
    "target/idl/"@ + program + ".json"@
}

pub open spec fn artifact_dir(program: Seq<char>, v: VersionV) -> Seq<char> {
    "artifacts/"@ + program + "/"@ + version_rep(v) + "/"@
}

pub open spec fn artifact_bin_path(program: Seq<char>, v: VersionV) -> Seq<char> {
    artifact_dir(program, v) + program + ".so"@
}

pub open spec fn artifact_id_path(program: Seq<char>, v: VersionV) -> Seq<char> {
    artifact_dir(program, v) + program + "-keypair.json"@
}

pub open spec fn artifact_idl_path(program: Seq<char>, v: VersionV) -> Seq<char> {
    artifact_dir(program, v) + program + ".json"@
}

impl ProgramPaths {
    /// The paths point at the build outputs of `program`.
    pub open spec fn wf(self, program: Seq<char>) -> bool {
        &&& self.bin@ == program_bin_path(program)
        &&& self.id@ == program_id_path(program)
        &&& self.idl@ == program_idl_path(program)
    }
}

impl ArtifactPaths {
    /// The paths point at the archived copy for `program` at version `v`.
    pub open spec fn wf(self, program: Seq<char>, v: VersionV) -> bool {
        &&& self.dir@ == artifact_dir(program, v)
        &&& self.bin@ == artifact_bin_path(program, v)
        &&& self.id@ == artifact_id_path(program, v)
        &&& self.idl@ == artifact_idl_path(program, v)
    }

    /// Whether the archived copy as a whole is present, given one existence
    /// check per file: it is present exactly when all three files are.
    pub fn exist(bin_present: bool, id_present: bool, idl_present: bool) -> (r: bool)
        ensures
            r == (bin_present && id_present && idl_present),
    {
        bin_present && id_present && idl_present
    }
}

/// Derives both path families from the fixed directory convention: build
/// outputs under `target/`, archives under `artifacts/`.
pub struct ArtifactLayout;

impl ArtifactLayout {
    /// The current build-output paths of `program`.
    pub fn program_paths(program: &str) -> (r: ProgramPaths)
        ensures
            r.wf(program@),
    {
        let bin = String::from_str("target/deploy/").concat(program).concat(".so");
        let id = String::from_str("target/deploy/").concat(program).concat("-keypair.json");
        let idl = String::from_str("target/idl/").concat(program).concat(".json");
        ProgramPaths { bin, id, idl }
    }

    /// The archived paths of `program` at version `v`.
    pub fn artifact_paths(program: &str, v: &Version) -> (r: ArtifactPaths)
        ensures
            r.wf(program@, v@),
    {
        let vtext = v.to_text();
        let dir = String::from_str("artifacts/").concat(program).concat("/").concat(
            vtext.as_str(),
        ).concat("/");
        let bin = dir.clone().concat(program).concat(".so");
        let id = dir.clone().concat(program).concat("-keypair.json");
        let idl = dir.clone().concat(program).concat(".json");
        let r = ArtifactPaths { dir, bin, id, idl };
        proof {
            assert(r.dir@ =~= artifact_dir(program@, v@));
            assert(r.bin@ =~= artifact_bin_path(program@, v@));
            assert(r.id@ =~= artifact_id_path(program@, v@));
            assert(r.idl@ =~= artifact_idl_path(program@, v@));
        }
        r
    }
}

} // verus!
