//! The mapping invariants and the configuration store's snapshot/replace
//! behaviour.

use tuxtalk::config::{Config, DaemonConfig, DefaultConfig, Mapping, ShellConfig, WhisperConfig};
use tuxtalk::ipc::handle_line;
use tuxtalk::commands::Resolution;
use tuxtalk::store::ConfigStore;

fn sample_config(prefix: &str) -> Config {
    let mut actions = Mapping::new();
    assert!(actions.push("lights".to_string(), "homectl".to_string()));
    let mut commands = Mapping::new();
    assert!(commands.push("on".to_string(), "--state=on".to_string()));
    Config {
        default: DefaultConfig { prefix: prefix.to_string() },
        daemon: DaemonConfig {
            audio_capture_enabled: true,
            audio_device: "default".to_string(),
        },
        shell: ShellConfig { program: "sh".to_string() },
        whisper: WhisperConfig { model: "base.en".to_string() },
        actions,
        commands,
    }
}

#[test]
fn mapping_stores_and_finds_entries() {
    let mut m = Mapping::new();
    assert_eq!(m.len(), 0);
    assert!(m.push("a".to_string(), "1".to_string()));
    assert!(m.push("b".to_string(), "2".to_string()));
    assert_eq!(m.len(), 2);
    assert_eq!(m.get(&"a".to_string()), Some("1".to_string()));
    assert_eq!(m.get(&"b".to_string()), Some("2".to_string()));
    assert_eq!(m.get(&"c".to_string()), None);
}

#[test]
fn mapping_keeps_keys_unique() {
    let mut m = Mapping::new();
    assert!(m.push("a".to_string(), "1".to_string()));
    assert!(!m.push("a".to_string(), "2".to_string()));
    assert_eq!(m.len(), 1);
    assert_eq!(m.get(&"a".to_string()), Some("1".to_string()));
}

#[test]
fn mapping_duplicate_is_a_full_copy() {
    let mut m = Mapping::new();
    assert!(m.push("a".to_string(), "1".to_string()));
    let copy = m.duplicate();
    assert!(m.push("b".to_string(), "2".to_string()));
    assert_eq!(copy.len(), 1);
    assert_eq!(copy.get(&"a".to_string()), Some("1".to_string()));
    assert_eq!(copy.get(&"b".to_string()), None);
}

#[test]
fn snapshot_taken_before_replace_keeps_old_version() {
    let mut store = ConfigStore::new(sample_config("TuxTalk"));
    let before = store.current();
    store.replace(sample_config("Renamed"));
    // The earlier snapshot still shows the pre-replacement configuration.
    assert_eq!(before.default.prefix, "TuxTalk");
    // A snapshot taken after the replacement shows the new one.
    let after = store.current();
    assert_eq!(after.default.prefix, "Renamed");
}

#[test]
fn failed_reload_keeps_prior_configuration() {
    let mut store = ConfigStore::new(sample_config("TuxTalk"));
    assert!(!store.apply_reload(None));
    assert_eq!(store.current().default.prefix, "TuxTalk");
    assert!(store.apply_reload(Some(sample_config("Fresh"))));
    assert_eq!(store.current().default.prefix, "Fresh");
}

#[test]
fn handle_line_rejects_a_malformed_line() {
    let config = sample_config("TuxTalk");
    let (request, resolution) = handle_line("turn on lights\n", &config);
    assert_eq!(request, "turn on lights");
    match resolution {
        Resolution::Reject { response } => {
            assert_eq!(response, "Invalid command format: 'turn on lights'");
        }
        Resolution::Run { .. } => panic!("ran despite missing brackets"),
    }
}

#[test]
fn handle_line_trims_and_resolves_against_snapshot() {
    let config = sample_config("TuxTalk");
    let (request, resolution) = handle_line("  [lights] on \n", &config);
    assert_eq!(request, "[lights] on");
    match resolution {
        Resolution::Run { command_line, .. } => assert_eq!(command_line, "homectl --state=on"),
        Resolution::Reject { response } => panic!("rejected: {}", response),
    }
}
