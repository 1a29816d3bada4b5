//! The execution context of one command: the program, its resolved version,
//! the target network, and every path the workflow will touch. Built once,
//! read-only afterwards.

use vstd::prelude::*;
use crate::FleetError;
use crate::network::NetworkConfig;
use crate::paths::{ArtifactLayout, ArtifactPaths, ProgramPaths};
use crate::version::{parse_version_spec, Version, VersionResolver};

verus! {

/// Everything one deploy or upgrade run works with.
pub struct Workspace {
    pub program: String,
    pub deploy_version: Version,
    pub network_config: NetworkConfig,
    pub program_paths: ProgramPaths,
    pub artifact_paths: ArtifactPaths,
    pub deployer_path: String,
    pub program_key: String,
    pub has_idl: bool,
}

impl Workspace {
    /// The build-output paths belong to the program, and the artifact paths
    /// to the program at its resolved version.
    pub open spec fn wf(self) -> bool {
        &&& self.program_paths.wf(self.program@)
        &&& self.artifact_paths.wf(self.program@, self.deploy_version@)
    }

    /// Builds the context: resolves the version (explicit override first,
    /// manifest otherwise) and derives both path families from it. The only
    /// failure is version resolution.
    pub fn init(
        program: &str,
        explicit: Option<Version>,
        manifest_version: Option<&str>,
        network_config: NetworkConfig,
        deployer_path: &str,
        program_key: &str,
        has_idl: bool,
    ) -> (r: Result<Workspace, FleetError>)
        ensures
            r is Ok <==> (explicit is Some || (manifest_version matches Some(m)
                && parse_version_spec(m@) is Some)),
            r is Err ==> r == Err::<Workspace, FleetError>(FleetError::ManifestRead),
            r matches Ok(w) ==> {
                &&& w.wf()
                &&& w.program@ == program@
                &&& (explicit matches Some(v) ==> w.deploy_version == v)
                &&& (explicit is None ==> (manifest_version matches Some(m)
                    ==> parse_version_spec(m@) == Some(w.deploy_version@)))
                &&& w.network_config == network_config
                &&& w.deployer_path@ == deployer_path@
                &&& w.program_key@ == program_key@
                &&& w.has_idl == has_idl
            },
    {
        let deploy_version = match VersionResolver::resolve(explicit, manifest_version) {
            Ok(v) => v,
            Err(e) => {
                return Err(e);
            },
        };
        let program_paths = ArtifactLayout::program_paths(program);
        let artifact_paths = ArtifactLayout::artifact_paths(program, &deploy_version);
        Ok(
            Workspace {
                program: String::from_str(program),
                deploy_version,
                network_config,
                program_paths,
                artifact_paths,
                deployer_path: String::from_str(deployer_path),
                program_key: String::from_str(program_key),
                has_idl,
            },
        )
    }
}

} // verus!
