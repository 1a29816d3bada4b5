use fleet::commands;
use fleet::network::{Network, NetworkConfig};
use fleet::staging::StagingKey;
use fleet::version::Version;
use fleet::workflow::{DeployAction, DeployEvent, DeployState, DeploymentWorkflow};
use fleet::workflow::{UpgradeAction, UpgradeEvent, UpgradeState, UpgradeWorkflow};
use fleet::workspace::Workspace;
use fleet::FleetError;

fn devnet_workspace(program: &str, has_idl: bool) -> Workspace {
    let config = NetworkConfig::builtin(Network::Devnet, "upgrade-authority.json".to_string());
    Workspace::init(
        program,
        Some(Version { major: 1, minor: 2, patch: 0, suffix: String::new() }),
        None,
        config,
        "deployer.json",
        "ESCRoW1111111111111111111111111111111111111",
        has_idl,
    )
    .unwrap()
}

#[test]
fn deploy_happy_path() {
    // Program not yet on chain: probe, deploy, hand off authority, copy.
    let mut wf = DeploymentWorkflow::new(false);
    assert_eq!(wf.step(DeployEvent::Started), Some(DeployAction::RunProbe));
    assert_eq!(wf.step(DeployEvent::Probe(false)), Some(DeployAction::RunDeploy));
    assert_eq!(wf.step(DeployEvent::StepOk), Some(DeployAction::RunSetAuthority));
    assert_eq!(wf.step(DeployEvent::StepOk), Some(DeployAction::CopyArtifacts));
    assert_eq!(wf.step(DeployEvent::StepOk), None);
    assert_eq!(wf.state, DeployState::Done);
}

#[test]
fn deploy_happy_path_with_idl() {
    let mut wf = DeploymentWorkflow::new(true);
    assert_eq!(wf.step(DeployEvent::Started), Some(DeployAction::RunProbe));
    assert_eq!(wf.step(DeployEvent::Probe(false)), Some(DeployAction::RunDeploy));
    assert_eq!(wf.step(DeployEvent::StepOk), Some(DeployAction::RunSetAuthority));
    assert_eq!(wf.step(DeployEvent::StepOk), Some(DeployAction::RunInitIdl));
    assert_eq!(wf.step(DeployEvent::StepOk), Some(DeployAction::RunSetIdlAuthority));
    assert_eq!(wf.step(DeployEvent::StepOk), Some(DeployAction::CopyArtifacts));
    assert_eq!(wf.step(DeployEvent::StepOk), None);
    assert_eq!(wf.state, DeployState::Done);
}

#[test]
fn deploy_short_circuits_when_already_deployed() {
    // The probe finds the program: no deploy command, terminal notice state.
    let mut wf = DeploymentWorkflow::new(true);
    assert_eq!(wf.step(DeployEvent::Started), Some(DeployAction::RunProbe));
    assert_eq!(wf.step(DeployEvent::Probe(true)), None);
    assert_eq!(wf.state, DeployState::AlreadyDeployed);
}

#[test]
fn deploy_aborts_on_command_failure() {
    let mut wf = DeploymentWorkflow::new(false);
    wf.step(DeployEvent::Started);
    wf.step(DeployEvent::Probe(false));
    assert_eq!(wf.step(DeployEvent::StepFailed), None);
    assert_eq!(wf.state, DeployState::Failed(FleetError::ExternalCommandFailure));
}

#[test]
fn deploy_aborts_when_probe_unreachable() {
    let mut wf = DeploymentWorkflow::new(false);
    wf.step(DeployEvent::Started);
    assert_eq!(wf.step(DeployEvent::ProbeError), None);
    assert_eq!(wf.state, DeployState::Failed(FleetError::Probe));
}

#[test]
fn upgrade_happy_path() {
    // Credential set, artifacts absent, program on chain: write buffer,
    // hand buffer authority over, switch, copy.
    let mut wf = UpgradeWorkflow::new(false);
    let a = wf.step(UpgradeEvent::Started { credential_present: true, artifacts_exist: false });
    assert!(matches!(a, Some(UpgradeAction::RunProbe)));
    let a = wf.step(UpgradeEvent::Probe(true));
    let key = match a {
        Some(UpgradeAction::WriteBuffer(key)) => key,
        _ => panic!("expected the write-buffer action"),
    };
    assert_eq!(key.keypair_bytes.len(), 64);
    assert!(!key.address.is_empty());
    assert!(matches!(wf.step(UpgradeEvent::StepOk), Some(UpgradeAction::SetBufferAuthority)));
    assert!(matches!(wf.step(UpgradeEvent::StepOk), Some(UpgradeAction::DeployFromBuffer)));
    assert!(matches!(wf.step(UpgradeEvent::StepOk), Some(UpgradeAction::CopyArtifacts)));
    assert!(matches!(wf.step(UpgradeEvent::StepOk), None));
    assert_eq!(wf.state, UpgradeState::Done);
}

#[test]
fn upgrade_requires_credential_first() {
    // Missing credential fails immediately, before any external command,
    // even when the duplicate-version guard would also fire.
    let mut wf = UpgradeWorkflow::new(true);
    let a = wf.step(UpgradeEvent::Started { credential_present: false, artifacts_exist: true });
    assert!(matches!(a, None));
    assert_eq!(wf.state, UpgradeState::Failed(FleetError::MissingCredential));
}

#[test]
fn upgrade_rejects_duplicate_version() {
    // Artifacts already archived for this version: immediate error, zero
    // external commands.
    let mut wf = UpgradeWorkflow::new(false);
    let a = wf.step(UpgradeEvent::Started { credential_present: true, artifacts_exist: true });
    assert!(matches!(a, None));
    assert_eq!(wf.state, UpgradeState::Failed(FleetError::DuplicateVersion));
}

#[test]
fn upgrade_needs_an_existing_program() {
    // Probe says the program is absent: fail, and never write a buffer.
    let mut wf = UpgradeWorkflow::new(false);
    let a = wf.step(UpgradeEvent::Started { credential_present: true, artifacts_exist: false });
    assert!(matches!(a, Some(UpgradeAction::RunProbe)));
    assert!(matches!(wf.step(UpgradeEvent::Probe(false)), None));
    assert_eq!(wf.state, UpgradeState::Failed(FleetError::ProgramNotDeployed));
}

#[test]
fn upgrade_aborts_on_command_failure() {
    let mut wf = UpgradeWorkflow::new(false);
    wf.step(UpgradeEvent::Started { credential_present: true, artifacts_exist: false });
    wf.step(UpgradeEvent::Probe(true));
    assert!(matches!(wf.step(UpgradeEvent::StepFailed), None));
    assert_eq!(wf.state, UpgradeState::Failed(FleetError::ExternalCommandFailure));
}

#[test]
fn deploy_reports_a_failed_copy_as_an_io_error() {
    let mut wf = DeploymentWorkflow::new(false);
    wf.step(DeployEvent::Started);
    wf.step(DeployEvent::Probe(false));
    wf.step(DeployEvent::StepOk);
    wf.step(DeployEvent::StepOk);
    assert_eq!(wf.state, DeployState::ArtifactsCopied);
    assert_eq!(wf.step(DeployEvent::StepFailed), None);
    assert_eq!(wf.state, DeployState::Failed(FleetError::Io));
}

#[test]
fn upgrade_aborts_when_probe_unreachable() {
    let mut wf = UpgradeWorkflow::new(false);
    wf.step(UpgradeEvent::Started { credential_present: true, artifacts_exist: false });
    assert!(matches!(wf.step(UpgradeEvent::ProbeError), None));
    assert_eq!(wf.state, UpgradeState::Failed(FleetError::Probe));
}

#[test]
fn staging_keys_are_distinct_per_draw() {
    let a = StagingKey::fresh();
    let b = StagingKey::fresh();
    assert_eq!(a.keypair_bytes.len(), 64);
    assert_eq!(b.keypair_bytes.len(), 64);
    assert_ne!(a.address, b.address);
    assert_ne!(a.keypair_bytes, b.keypair_bytes);
}

#[test]
fn staging_credential_file_is_removed() {
    // The temporary credential file the driver writes the staging key to is
    // scope-bound: gone as soon as it is released.
    let file = tempfile::NamedTempFile::new().unwrap();
    let path = file.path().to_path_buf();
    assert!(path.exists());
    drop(file);
    assert!(!path.exists());
}

#[test]
fn deploy_command_arguments() {
    let w = devnet_workspace("escrow", false);
    let argv = commands::deploy_command(&w);
    assert_eq!(
        argv,
        vec![
            "program",
            "deploy",
            "target/deploy/escrow.so",
            "--keypair",
            "deployer.json",
            "--program-id",
            "target/deploy/escrow-keypair.json",
        ]
    );
}

#[test]
fn probe_and_authority_command_arguments() {
    let w = devnet_workspace("escrow", false);
    assert_eq!(
        commands::show_command(&w),
        vec![
            "program",
            "show",
            "ESCRoW1111111111111111111111111111111111111",
            "--url",
            "https://api.devnet.solana.com",
        ]
    );
    assert_eq!(
        commands::set_authority_command(&w),
        vec![
            "program",
            "set-upgrade-authority",
            "target/deploy/escrow-keypair.json",
            "--keypair",
            "deployer.json",
            "--new-upgrade-authority",
            "upgrade-authority.json",
        ]
    );
}

#[test]
fn buffer_command_arguments() {
    let w = devnet_workspace("escrow", false);
    assert_eq!(
        commands::write_buffer_command(&w, "/tmp/staging-keypair.json"),
        vec![
            "program",
            "write-buffer",
            "target/deploy/escrow.so",
            "--keypair",
            "deployer.json",
            "--output",
            "json",
            "--buffer",
            "/tmp/staging-keypair.json",
        ]
    );
    assert_eq!(
        commands::set_buffer_authority_command(&w, "BUFFERADDRESS"),
        vec![
            "program",
            "set-buffer-authority",
            "BUFFERADDRESS",
            "--keypair",
            "deployer.json",
            "--new-buffer-authority",
            "upgrade-authority.json",
        ]
    );
}

#[test]
fn switch_is_signed_by_the_upgrade_authority() {
    // The switch to the staged buffer uses the upgrade-authority credential,
    // never the deployer key.
    let w = devnet_workspace("escrow", false);
    let argv = commands::switch_command(&w, "BUFFERADDRESS", "upgrade-authority-keypair.json");
    assert_eq!(
        argv,
        vec![
            "program",
            "deploy",
            "--buffer",
            "BUFFERADDRESS",
            "--keypair",
            "upgrade-authority-keypair.json",
            "--program-id",
            "ESCRoW1111111111111111111111111111111111111",
        ]
    );
    assert!(!argv.contains(&w.deployer_path));
}

#[test]
fn idl_command_arguments() {
    let w = devnet_workspace("escrow", true);
    assert_eq!(
        commands::idl_init_command(&w),
        vec![
            "idl",
            "init",
            "ESCRoW1111111111111111111111111111111111111",
            "--filepath",
            "target/idl/escrow.json",
            "--provider.cluster",
            "devnet",
            "--provider.wallet",
            "deployer.json",
        ]
    );
    assert_eq!(
        commands::idl_set_authority_command(&w),
        vec![
            "idl",
            "set-authority",
            "--program-id",
            "ESCRoW1111111111111111111111111111111111111",
            "--new-authority",
            "upgrade-authority.json",
            "--provider.cluster",
            "devnet",
            "--provider.wallet",
            "deployer.json",
        ]
    );
    assert_eq!(
        commands::idl_write_buffer_command(&w),
        vec![
            "idl",
            "write-buffer",
            "ESCRoW1111111111111111111111111111111111111",
            "--filepath",
            "target/idl/escrow.json",
            "--provider.cluster",
            "devnet",
            "--provider.wallet",
            "deployer.json",
        ]
    );
}
