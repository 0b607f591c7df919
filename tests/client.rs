use rsf::client::{summary_line, ClientConfig};
use rsf::commands::{Commands, ScanCommands, VolumeCommands};

fn config() -> ClientConfig {
    ClientConfig::new("https://host/api".to_string(), "starfish".to_string(), "starfish".to_string())
}

#[test]
fn auth_header_is_basic_base64() {
    assert_eq!(config().basic_auth_header(), "Basic c3RhcmZpc2g6c3RhcmZpc2g=");
    let other = ClientConfig::new(String::new(), "a".to_string(), "b".to_string());
    assert_eq!(other.basic_auth_header(), "Basic YTpi");
}

#[test]
fn resource_urls() {
    let c = config();
    assert_eq!(c.volumes_url(), "https://host/api/volume/");
    assert_eq!(c.volume_url("data"), "https://host/api/volume/data");
    assert_eq!(c.scans_url(), "https://host/api/scan/");
    assert_eq!(c.scan_url("42"), "https://host/api/scan/42");
}

#[test]
fn summary_joins_with_space() {
    assert_eq!(summary_line("vol1", "agent:30002"), "vol1 agent:30002");
    assert_eq!(summary_line("", ""), " ");
}

#[test]
fn commands_hold_their_arguments() {
    let c = Commands::Volume { command: VolumeCommands::Show { name: "x".to_string(), json: true } };
    assert_eq!(c, Commands::Volume { command: VolumeCommands::Show { name: "x".to_string(), json: true } });
    assert_ne!(Commands::Scan { command: ScanCommands::List { json: false } }, Commands::Ui);
}
