use fleet::network::{Network, NetworkConfig, NetworkRegistry};
use fleet::paths::{ArtifactLayout, ArtifactPaths};
use fleet::version::{parse_version, Version, VersionResolver};
use fleet::workspace::Workspace;
use fleet::FleetError;

fn v(major: u64, minor: u64, patch: u64) -> Version {
    Version { major, minor, patch, suffix: String::new() }
}

fn vs(major: u64, minor: u64, patch: u64, suffix: &str) -> Version {
    Version { major, minor, patch, suffix: suffix.to_string() }
}

#[test]
fn parse_version_plain() {
    assert_eq!(parse_version("1.2.3"), Some(v(1, 2, 3)));
    assert_eq!(parse_version("0.0.0"), Some(v(0, 0, 0)));
    assert_eq!(parse_version("10.20.30"), Some(v(10, 20, 30)));
}

#[test]
fn parse_version_rejects_malformed() {
    assert_eq!(parse_version(""), None);
    assert_eq!(parse_version("1.2"), None);
    assert_eq!(parse_version("1.2.3.4"), None);
    assert_eq!(parse_version("1..3"), None);
    assert_eq!(parse_version("a.b.c"), None);
    assert_eq!(parse_version(" 1.2.3"), None);
}

#[test]
fn parse_version_rejects_leading_zeros() {
    assert_eq!(parse_version("01.2.3"), None);
    assert_eq!(parse_version("1.02.3"), None);
    assert_eq!(parse_version("1.2.00"), None);
}

#[test]
fn parse_version_with_suffix() {
    assert_eq!(parse_version("1.2.0-rc.1"), Some(vs(1, 2, 0, "-rc.1")));
    assert_eq!(parse_version("1.2.3-alpha"), Some(vs(1, 2, 3, "-alpha")));
    assert_eq!(parse_version("1.2.3-0.3.7"), Some(vs(1, 2, 3, "-0.3.7")));
    assert_eq!(parse_version("1.2.3+build.5"), Some(vs(1, 2, 3, "+build.5")));
    assert_eq!(parse_version("1.2.3-beta.2+exp.sha.5114f85"), Some(vs(1, 2, 3, "-beta.2+exp.sha.5114f85")));
    assert_eq!(parse_version("1.2.3+21AF26D3---117B344092BD"), Some(vs(1, 2, 3, "+21AF26D3---117B344092BD")));
    // build-metadata identifiers may carry leading zeros
    assert_eq!(parse_version("1.2.3+001"), Some(vs(1, 2, 3, "+001")));
}

#[test]
fn parse_version_rejects_malformed_suffix() {
    // trailing separator, empty identifiers
    assert_eq!(parse_version("1.2.3-"), None);
    assert_eq!(parse_version("1.2.3+"), None);
    assert_eq!(parse_version("1.2.3-rc."), None);
    assert_eq!(parse_version("1.2.3-a..b"), None);
    assert_eq!(parse_version("1.2.3-+b"), None);
    // a numeric pre-release identifier must carry no leading zero
    assert_eq!(parse_version("1.2.3-01"), None);
    assert_eq!(parse_version("1.2.3-rc.01"), None);
    // only identifier characters are allowed
    assert_eq!(parse_version("1.2.3-rc!1"), None);
    assert_eq!(parse_version("1.2.3-a_b"), None);
    // at most one build part
    assert_eq!(parse_version("1.2.3+a+b"), None);
    // the suffix must open with a dash or a plus
    assert_eq!(parse_version("1.2.3rc"), None);
}

#[test]
fn parse_version_bounds() {
    assert_eq!(
        parse_version("18446744073709551615.0.0"),
        Some(v(u64::MAX, 0, 0))
    );
    assert_eq!(parse_version("18446744073709551616.0.0"), None);
}

#[test]
fn parse_version_agrees_with_semver() {
    for text in [
        "1.2.3",
        "0.4.0",
        "12.0.7",
        "1.2.0-rc.1",
        "1.2.3-beta.2+exp.sha.5114f85",
        "1.2.3+001",
        "1.2.3-0.3.7",
    ] {
        let ours = parse_version(text).unwrap();
        let theirs = semver::Version::parse(text).unwrap();
        assert_eq!(ours.major, theirs.major);
        assert_eq!(ours.minor, theirs.minor);
        assert_eq!(ours.patch, theirs.patch);
        let mut their_suffix = String::new();
        if !theirs.pre.is_empty() {
            their_suffix.push('-');
            their_suffix.push_str(theirs.pre.as_str());
        }
        if !theirs.build.is_empty() {
            their_suffix.push('+');
            their_suffix.push_str(theirs.build.as_str());
        }
        assert_eq!(ours.suffix, their_suffix);
    }
    // both sides reject the same malformed suffixes
    for text in ["1.2.3-", "1.2.3-01", "1.2.3-a..b", "1.2.3-rc!1", "1.2.3+a+b"] {
        assert_eq!(parse_version(text), None);
        assert!(semver::Version::parse(text).is_err());
    }
}

#[test]
fn version_to_text() {
    assert_eq!(v(1, 2, 0).to_text(), "1.2.0");
    assert_eq!(v(0, 0, 0).to_text(), "0.0.0");
    assert_eq!(v(10, 20, 30).to_text(), "10.20.30");
    assert_eq!(vs(1, 2, 0, "-rc.1").to_text(), "1.2.0-rc.1");
    assert_eq!(vs(1, 2, 3, "+build.5").to_text(), "1.2.3+build.5");
    assert_eq!(
        v(u64::MAX, 0, 1).to_text(),
        "18446744073709551615.0.1"
    );
}

#[test]
fn version_round_trip() {
    for ver in [v(0, 0, 1), v(1, 2, 3), v(999, 0, 42), vs(1, 2, 0, "-rc.1"), vs(7, 0, 1, "-beta+sha.321")] {
        assert_eq!(parse_version(&ver.to_text()), Some(ver));
    }
}

#[test]
fn resolver_explicit_wins() {
    // An explicit version is returned verbatim, whatever the manifest says.
    assert_eq!(
        VersionResolver::resolve(Some(v(1, 2, 3)), Some("9.9.9")),
        Ok(v(1, 2, 3))
    );
    assert_eq!(
        VersionResolver::resolve(Some(v(1, 2, 3)), Some("not a version")),
        Ok(v(1, 2, 3))
    );
    assert_eq!(VersionResolver::resolve(Some(v(1, 2, 3)), None), Ok(v(1, 2, 3)));
}

#[test]
fn resolver_manifest_fallback() {
    assert_eq!(
        VersionResolver::resolve(None, Some("4.5.6")),
        Ok(v(4, 5, 6))
    );
    assert_eq!(
        VersionResolver::resolve(None, None),
        Err(FleetError::ManifestRead)
    );
    assert_eq!(
        VersionResolver::resolve(None, Some("nonsense")),
        Err(FleetError::ManifestRead)
    );
}

#[test]
fn program_paths_convention() {
    let p = ArtifactLayout::program_paths("escrow");
    assert_eq!(p.bin, "target/deploy/escrow.so");
    assert_eq!(p.id, "target/deploy/escrow-keypair.json");
    assert_eq!(p.idl, "target/idl/escrow.json");
}

#[test]
fn artifact_paths_convention() {
    let a = ArtifactLayout::artifact_paths("escrow", &v(1, 2, 0));
    assert_eq!(a.dir, "artifacts/escrow/1.2.0/");
    assert_eq!(a.bin, "artifacts/escrow/1.2.0/escrow.so");
    assert_eq!(a.id, "artifacts/escrow/1.2.0/escrow-keypair.json");
    assert_eq!(a.idl, "artifacts/escrow/1.2.0/escrow.json");
}

#[test]
fn artifact_paths_with_suffixed_version() {
    let a = ArtifactLayout::artifact_paths("escrow", &vs(1, 2, 0, "-rc.1"));
    assert_eq!(a.dir, "artifacts/escrow/1.2.0-rc.1/");
    assert_eq!(a.bin, "artifacts/escrow/1.2.0-rc.1/escrow.so");
    assert_eq!(a.id, "artifacts/escrow/1.2.0-rc.1/escrow-keypair.json");
    assert_eq!(a.idl, "artifacts/escrow/1.2.0-rc.1/escrow.json");
}

#[test]
fn artifacts_exist_needs_all_three() {
    assert!(ArtifactPaths::exist(true, true, true));
    assert!(!ArtifactPaths::exist(false, true, true));
    assert!(!ArtifactPaths::exist(true, false, true));
    assert!(!ArtifactPaths::exist(true, true, false));
    assert!(!ArtifactPaths::exist(false, false, false));
}

#[test]
fn network_names_and_endpoints() {
    assert_eq!(Network::parse("devnet"), Some(Network::Devnet));
    assert_eq!(Network::parse("localnet"), Some(Network::Localnet));
    assert_eq!(Network::parse("testnet"), Some(Network::Testnet));
    assert_eq!(Network::parse("mainnet"), Some(Network::Mainnet));
    assert_eq!(Network::parse("moonnet"), None);
    assert_eq!(Network::Devnet.name(), "devnet");
    assert_eq!(Network::Devnet.default_rpc(), "https://api.devnet.solana.com");
    assert_eq!(Network::Localnet.default_rpc(), "http://127.0.0.1:8899");
}

#[test]
fn registry_resolves_known_and_rejects_unknown() {
    let mut reg = NetworkRegistry::new();
    reg.add(NetworkConfig::builtin(Network::Devnet, "devnet-authority.json".to_string()));
    reg.add(NetworkConfig {
        name: "staging".to_string(),
        rpc_url: "https://rpc.example.org".to_string(),
        upgrade_authority: "staging-authority.json".to_string(),
    });

    let devnet = reg.resolve("devnet").unwrap();
    assert_eq!(devnet.rpc_url, "https://api.devnet.solana.com");
    assert_eq!(devnet.upgrade_authority, "devnet-authority.json");

    let custom = reg.resolve("staging").unwrap();
    assert_eq!(custom.rpc_url, "https://rpc.example.org");

    assert!(matches!(reg.resolve("nowhere"), Err(FleetError::UnknownNetwork)));
}

#[test]
fn workspace_init_builds_context() {
    let config = NetworkConfig::builtin(Network::Devnet, "authority.json".to_string());
    let w = Workspace::init(
        "escrow",
        None,
        Some("1.2.0"),
        config,
        "deployer.json",
        "ESCRoW1111111111111111111111111111111111111",
        true,
    )
    .unwrap();
    assert_eq!(w.program, "escrow");
    assert_eq!(w.deploy_version, v(1, 2, 0));
    assert_eq!(w.program_paths.bin, "target/deploy/escrow.so");
    assert_eq!(w.artifact_paths.dir, "artifacts/escrow/1.2.0/");
    assert_eq!(w.deployer_path, "deployer.json");
    assert_eq!(w.program_key, "ESCRoW1111111111111111111111111111111111111");
    assert!(w.has_idl);
}

#[test]
fn workspace_init_requires_a_version() {
    let config = NetworkConfig::builtin(Network::Devnet, "authority.json".to_string());
    let r = Workspace::init("escrow", None, None, config, "deployer.json", "key", false);
    assert!(matches!(r, Err(FleetError::ManifestRead)));
}
