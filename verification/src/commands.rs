//! Argument lists for the external commands the workflows stage. Each
//! function computes the exact argv the driver hands to the external binary
//! (the chain tool for program operations, the interface tool for the idl
//! operations); spawning the process stays with the driver.

use vstd::prelude::*;
use crate::workspace::Workspace;

verus! {

/// The probe: queries the program account on the workspace's network.
pub fn show_command(w: &Workspace) -> (r: Vec<String>)
    ensures
        r@.len() == 5,
        r@[0]@ == "program"@,
        r@[1]@ == "show"@,
        r@[2]@ == w.program_key@,
        r@[3]@ == "--url"@,
        r@[4]@ == w.network_config.rpc_url@,
{
    let mut v: Vec<String> = Vec::new();
    v.push(String::from_str("program"));
    v.push(String::from_str("show"));
    v.push(w.program_key.clone());
    v.push(String::from_str("--url"));
    v.push(w.network_config.rpc_url.clone());
    v
}

/// First deployment of the built binary, signed by the deployer key.
pub fn deploy_command(w: &Workspace) -> (r: Vec<String>)
    ensures
        r@.len() == 7,
        r@[0]@ == "program"@,
        r@[1]@ == "deploy"@,
        r@[2]@ == w.program_paths.bin@,
        r@[3]@ == "--keypair"@,
        r@[4]@ == w.deployer_path@,
        r@[5]@ == "--program-id"@,
        r@[6]@ == w.program_paths.id@,
{
    let mut v: Vec<String> = Vec::new();
    v.push(String::from_str("program"));
    v.push(String::from_str("deploy"));
    v.push(w.program_paths.bin.clone());
    v.push(String::from_str("--keypair"));
    v.push(w.deployer_path.clone());
    v.push(String::from_str("--program-id"));
    v.push(w.program_paths.id.clone());
    v
}

/// Hands the program's upgrade authority from the deployer key to the
/// network's configured upgrade authority.
pub fn set_authority_command(w: &Workspace) -> (r: Vec<String>)
    ensures
        r@.len() == 7,
        r@[0]@ == "program"@,
        r@[1]@ == "set-upgrade-authority"@,
        r@[2]@ == w.program_paths.id@,
        r@[3]@ == "--keypair"@,
        r@[4]@ == w.deployer_path@,
        r@[5]@ == "--new-upgrade-authority"@,
        r@[6]@ == w.network_config.upgrade_authority@,
{
    let mut v: Vec<String> = Vec::new();
    v.push(String::from_str("program"));
    v.push(String::from_str("set-upgrade-authority"));
    v.push(w.program_paths.id.clone());
    v.push(String::from_str("--keypair"));
    v.push(w.deployer_path.clone());
    v.push(String::from_str("--new-upgrade-authority"));
    v.push(w.network_config.upgrade_authority.clone());
    v
}

/// Stages the new binary at the staging key's address, signed by the
/// deployer key; `buffer_keypair_file` is the temporary credential file the
/// driver wrote the staging key to.
pub fn write_buffer_command(w: &Workspace, buffer_keypair_file: &str) -> (r: Vec<String>)
    ensures
        r@.len() == 9,
        r@[0]@ == "program"@,
        r@[1]@ == "write-buffer"@,
        r@[2]@ == w.program_paths.bin@,
        r@[3]@ == "--keypair"@,
        r@[4]@ == w.deployer_path@,
        r@[5]@ == "--output"@,
        r@[6]@ == "json"@,
        r@[7]@ == "--buffer"@,
        r@[8]@ == buffer_keypair_file@,
{
    let mut v: Vec<String> = Vec::new();
    v.push(String::from_str("program"));
    v.push(String::from_str("write-buffer"));
    v.push(w.program_paths.bin.clone());
    v.push(String::from_str("--keypair"));
    v.push(w.deployer_path.clone());
    v.push(String::from_str("--output"));
    v.push(String::from_str("json"));
    v.push(String::from_str("--buffer"));
    v.push(String::from_str(buffer_keypair_file));
    v
}

/// Hands authority over the staging buffer to the network's upgrade
/// authority, so the switch can be signed by it.
pub fn set_buffer_authority_command(w: &Workspace, buffer_address: &str) -> (r: Vec<String>)
    ensures
        r@.len() == 7,
        r@[0]@ == "program"@,
        r@[1]@ == "set-buffer-authority"@,
        r@[2]@ == buffer_address@,
        r@[3]@ == "--keypair"@,
        r@[4]@ == w.deployer_path@,
        r@[5]@ == "--new-buffer-authority"@,
        r@[6]@ == w.network_config.upgrade_authority@,
{
    let mut v: Vec<String> = Vec::new();
    v.push(String::from_str("program"));
    v.push(String::from_str("set-buffer-authority"));
    v.push(String::from_str(buffer_address));
    v.push(String::from_str("--keypair"));
    v.push(w.deployer_path.clone());
    v.push(String::from_str("--new-buffer-authority"));
    v.push(w.network_config.upgrade_authority.clone());
    v
}

/// The switch: replaces the live program with the staged buffer contents.
/// It is signed by the upgrade-authority credential, never by the deployer
/// key.
pub fn switch_command(w: &Workspace, buffer_address: &str, upgrade_authority_keypair: &str) -> (r:
    Vec<String>)
    ensures
        r@.len() == 8,
        r@[0]@ == "program"@,
        r@[1]@ == "deploy"@,
        r@[2]@ == "--buffer"@,
        r@[3]@ == buffer_address@,
        r@[4]@ == "--keypair"@,
        r@[5]@ == upgrade_authority_keypair@,
        r@[6]@ == "--program-id"@,
        r@[7]@ == w.program_key@,
{
    let mut v: Vec<String> = Vec::new();
    v.push(String::from_str("program"));
    v.push(String::from_str("deploy"));
    v.push(String::from_str("--buffer"));
    v.push(String::from_str(buffer_address));
    v.push(String::from_str("--keypair"));
    v.push(String::from_str(upgrade_authority_keypair));
    v.push(String::from_str("--program-id"));
    v.push(w.program_key.clone());
    v
}

/// Publishes the interface description for a fresh deployment.
pub fn idl_init_command(w: &Workspace) -> (r: Vec<String>)
    ensures
        r@.len() == 9,
        r@[0]@ == "idl"@,
        r@[1]@ == "init"@,
        r@[2]@ == w.program_key@,
        r@[3]@ == "--filepath"@,
        r@[4]@ == w.program_paths.idl@,
        r@[5]@ == "--provider.cluster"@,
        r@[6]@ == w.network_config.name@,
        r@[7]@ == "--provider.wallet"@,
        r@[8]@ == w.deployer_path@,
{
    let mut v: Vec<String> = Vec::new();
    v.push(String::from_str("idl"));
    v.push(String::from_str("init"));
    v.push(w.program_key.clone());
    v.push(String::from_str("--filepath"));
    v.push(w.program_paths.idl.clone());
    v.push(String::from_str("--provider.cluster"));
    v.push(w.network_config.name.clone());
    v.push(String::from_str("--provider.wallet"));
    v.push(w.deployer_path.clone());
    v
}

/// Hands the interface description's authority to the network's upgrade
/// authority.
pub fn idl_set_authority_command(w: &Workspace) -> (r: Vec<String>)
    ensures
        r@.len() == 10,
        r@[0]@ == "idl"@,
        r@[1]@ == "set-authority"@,
        r@[2]@ == "--program-id"@,
        r@[3]@ == w.program_key@,
        r@[4]@ == "--new-authority"@,
        r@[5]@ == w.network_config.upgrade_authority@,
        r@[6]@ == "--provider.cluster"@,
        r@[7]@ == w.network_config.name@,
        r@[8]@ == "--provider.wallet"@,
        r@[9]@ == w.deployer_path@,
{
    let mut v: Vec<String> = Vec::new();
    v.push(String::from_str("idl"));
    v.push(String::from_str("set-authority"));
    v.push(String::from_str("--program-id"));
    v.push(w.program_key.clone());
    v.push(String::from_str("--new-authority"));
    v.push(w.network_config.upgrade_authority.clone());
    v.push(String::from_str("--provider.cluster"));
    v.push(w.network_config.name.clone());
    v.push(String::from_str("--provider.wallet"));
    v.push(w.deployer_path.clone());
    v
}

/// Stages an updated interface description. Finalizing it has no automated
/// hook; the operator is told to run the manual step.
pub fn idl_write_buffer_command(w: &Workspace) -> (r: Vec<String>)
    ensures
        r@.len() == 9,
        r@[0]@ == "idl"@,
        r@[1]@ == "write-buffer"@,
        r@[2]@ == w.program_key@,
        r@[3]@ == "--filepath"@,
        r@[4]@ == w.program_paths.idl@,
        r@[5]@ == "--provider.cluster"@,
        r@[6]@ == w.network_config.name@,
        r@[7]@ == "--provider.wallet"@,
        r@[8]@ == w.deployer_path@,
{
    let mut v: Vec<String> = Vec::new();
    v.push(String::from_str("idl"));
    v.push(String::from_str("write-buffer"));
    v.push(w.program_key.clone());
    v.push(String::from_str("--filepath"));
    v.push(w.program_paths.idl.clone());
    v.push(String::from_str("--provider.cluster"));
    v.push(w.network_config.name.clone());
    v.push(String::from_str("--provider.wallet"));
    v.push(w.deployer_path.clone());
    v
}

} // verus!
