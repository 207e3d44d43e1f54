use linera_rest_api::error::{CommandKind, ManagerError};
use linera_rest_api::manager::{
    trimmed_key, wallet_info_from_text, CommandOutput, LineraManager, DEFAULT_FAUCET_URL,
};
use linera_rest_api::models::default_port;

fn manager() -> LineraManager<u32> {
    LineraManager::new("/home/u", None, None, None)
}

fn out(success: bool, stdout: &str, stderr: &str) -> CommandOutput {
    CommandOutput {
        success,
        stdout: stdout.as_bytes().to_vec(),
        stderr: stderr.as_bytes().to_vec(),
    }
}

fn strs(v: &[&str]) -> Vec<String> {
    v.iter().map(|s| s.to_string()).collect()
}

#[test]
fn default_paths_are_under_home() {
    let m = manager();
    assert_eq!(m.linera_bin(), "/home/u/bin/linera");
    assert_eq!(
        m.wallet_show_command(),
        strs(&["--wallet", "/home/u/linera-wallet.json", "--keystore", "/home/u/linera-keystore.json", "wallet", "show"])
    );
}

#[test]
fn given_paths_override_defaults() {
    let m: LineraManager<u32> = LineraManager::new(
        "/h",
        Some("/opt/linera".to_string()),
        Some("w.json".to_string()),
        Some("k.json".to_string()),
    );
    assert_eq!(m.linera_bin(), "/opt/linera");
    assert_eq!(m.keygen_command(), strs(&["--wallet", "w.json", "--keystore", "k.json", "keygen"]));
}

#[test]
fn default_port_is_8080() {
    assert_eq!(default_port(), 8080);
}

#[test]
fn start_gives_service_arguments() {
    let m = manager();
    let args = m.start_service(8080).unwrap();
    assert_eq!(
        args,
        strs(&[
            "--wallet", "/home/u/linera-wallet.json", "--keystore", "/home/u/linera-keystore.json",
            "--storage", "memory", "service", "--port", "8080",
        ])
    );
}

#[test]
fn second_start_is_refused_and_port_kept() {
    let mut m = manager();
    assert!(m.start_service(9000).is_ok());
    m.service_started(1, Some(42), 9000);
    assert_eq!(m.start_service(9001), Err(ManagerError::AlreadyRunning));
    assert_eq!(m.start_service(9000), Err(ManagerError::AlreadyRunning));
    assert_eq!(m.get_port(), Some(9000));
    assert_eq!(ManagerError::AlreadyRunning.message(), "Service is already running");
}

#[test]
fn stop_when_idle_is_not_running_and_changes_nothing() {
    let mut m = manager();
    assert!(matches!(m.stop_service(), Err(ManagerError::NotRunning)));
    let s = m.status();
    assert!(!s.running);
    assert_eq!(s.pid, None);
    assert_eq!(s.port, None);
    assert_eq!(ManagerError::NotRunning.message(), "Service is not running");
}

#[test]
fn status_follows_start_and_stop() {
    let mut m = manager();
    m.service_started(7, Some(1234), 8080);
    let s = m.status();
    assert!(s.running);
    assert_eq!(s.pid, Some(1234));
    assert_eq!(s.port, Some(8080));
    assert!(m.is_running());
    let inst = m.stop_service().unwrap();
    assert_eq!(inst.handle, 7);
    assert_eq!(inst.port, 8080);
    let s = m.status();
    assert!(!s.running);
    assert_eq!(s.pid, None);
    assert_eq!(s.port, None);
    assert!(m.start_service(8081).is_ok());
}

#[test]
fn init_wallet_command_uses_default_or_given_faucet() {
    let m = manager();
    let d = m.init_wallet_command(None);
    assert_eq!(d[4..].to_vec(), strs(&["wallet", "init", "--faucet", DEFAULT_FAUCET_URL]));
    assert_eq!(DEFAULT_FAUCET_URL, "https://faucet.testnet-conway.linera.net");
    let g = m.init_wallet_command(Some("http://f"));
    assert_eq!(g[4..].to_vec(), strs(&["wallet", "init", "--faucet", "http://f"]));
}

#[test]
fn init_wallet_failure_carries_stderr() {
    let m = manager();
    let e = m.init_wallet(&out(false, "", "boom")).unwrap_err();
    assert_eq!(
        e,
        ManagerError::CommandFailed { command: CommandKind::WalletInit, stderr: "boom".to_string() }
    );
    assert_eq!(e.message(), "Failed to initialize wallet: boom");
    assert!(m.init_wallet(&out(true, "", "")).is_ok());
}

#[test]
fn wallet_info_reads_chain_and_owner_from_both_streams() {
    let m = manager();
    let o = out(true, "Default owner: 0xowner\n", "Chain ID: chain123\n");
    let info = m.get_wallet_info(&o).unwrap();
    assert_eq!(info.chain_id, "chain123");
    assert_eq!(info.public_key, "0xowner");
}

#[test]
fn wallet_info_without_owner_uses_placeholder() {
    let m = manager();
    let o = out(true, "Chain ID: c9\n", "");
    let info = m.get_wallet_info(&o).unwrap();
    assert_eq!(info.chain_id, "c9");
    assert_eq!(info.public_key, "No owner key");
}

#[test]
fn wallet_info_without_chain_is_field_not_found() {
    let m = manager();
    let e = m.get_wallet_info(&out(true, "nothing here", "")).unwrap_err();
    assert_eq!(e, ManagerError::FieldNotFound { field: "Chain ID".to_string() });
}

#[test]
fn wallet_info_failure_is_command_failed() {
    let m = manager();
    let e = m.get_wallet_info(&out(false, "Chain ID: x", "no wallet")).unwrap_err();
    assert_eq!(e.message(), "Failed to get wallet info: no wallet");
}

#[test]
fn keygen_trims_stdout() {
    let m = manager();
    assert_eq!(m.keygen(&out(true, "  0xkey\n", "")).unwrap(), "0xkey");
    let e = m.keygen(&out(false, "", "bad")).unwrap_err();
    assert_eq!(e.message(), "Failed to generate keypair: bad");
}

#[test]
fn keygen_decodes_invalid_utf8_lossily() {
    let m = manager();
    let o = CommandOutput { success: true, stdout: vec![b'a', 0xff, b'b'], stderr: vec![] };
    assert_eq!(m.keygen(&o).unwrap(), "a\u{fffd}b");
}

#[test]
fn add_owner_with_no_keys_is_invalid_argument() {
    let m = manager();
    let e = m.add_owner_command("chain1", &vec![]).unwrap_err();
    assert_eq!(
        e,
        ManagerError::InvalidArgument { message: "At least one public key is required".to_string() }
    );
    let e2 = m.add_owner("chain1", vec![], &out(true, "", "")).unwrap_err();
    assert_eq!(e2.message(), "At least one public key is required");
}

#[test]
fn add_owner_command_lists_each_key() {
    let m = manager();
    let args = m.add_owner_command("chain1", &strs(&["k1", "k2"])).unwrap();
    assert_eq!(
        args[4..].to_vec(),
        strs(&["change-ownership", "--chain-id", "chain1", "--owner-public-keys", "k1", "k2"])
    );
}

#[test]
fn add_owner_echoes_keys_on_success() {
    let m = manager();
    let r = m.add_owner("chain1", strs(&["k1", "k2"]), &out(true, "", "")).unwrap();
    assert!(r.success);
    assert_eq!(r.chain_id, "chain1");
    assert_eq!(r.owners, strs(&["k1", "k2"]));
    let e = m.add_owner("chain1", strs(&["k1"]), &out(false, "", "denied")).unwrap_err();
    assert_eq!(e.message(), "Failed to add owner: denied");
}

#[test]
fn add_owner_command_single_key() {
    let m = manager();
    let args = m.add_owner_command("c", &strs(&["k"])).unwrap();
    assert_eq!(args[4..].to_vec(), strs(&["change-ownership", "--chain-id", "c", "--owner-public-keys", "k"]));
}

#[test]
fn wallet_info_from_text_searches_stderr_then_stdout() {
    let info = wallet_info_from_text("Chain ID: e1\n", "Default owner: o1\nChain ID: e2").unwrap();
    assert_eq!(info.chain_id, "e1");
    assert_eq!(info.public_key, "o1");
    let info = wallet_info_from_text("", "Chain ID : c7").unwrap();
    assert_eq!(info.chain_id, "c7");
    assert_eq!(info.public_key, "No owner key");
    let e = wallet_info_from_text("oops", "").unwrap_err();
    assert_eq!(e, ManagerError::FieldNotFound { field: "Chain ID".to_string() });
}

#[test]
fn trimmed_key_removes_surrounding_white_space() {
    assert_eq!(trimmed_key("\t 0xabc \r\n"), "0xabc");
    assert_eq!(trimmed_key("   "), "");
    assert_eq!(trimmed_key("a b"), "a b");
}
