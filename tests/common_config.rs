use runtime_measurer::config::{
    default_config_path, default_cryptpilot_binary, default_false, default_hash_algorithm,
    default_pcr_index, Config, FileMeasurementConfig, MeasurementChannel, ModelDirMeasurementConfig,
};

fn snapshot(files: &[&str], dirs: &[&str]) -> Config {
    let mut fm = FileMeasurementConfig::default();
    fm.enable = true;
    fm.files = files.iter().map(|s| s.to_string()).collect();
    let mut md = ModelDirMeasurementConfig::default();
    md.directories = dirs.iter().map(|s| s.to_string()).collect();
    Config {
        attestation_agent_socket: "unix:///run/aa.sock".to_string(),
        aa_channel: MeasurementChannel::UnixSocket,
        trustiflux_api_endpoint: None,
        one_shot: false,
        file_measurement: fm,
        model_dir_measurement: md,
    }
}

#[test]
fn defaults_match_documented_values() {
    assert!(!default_false());
    assert_eq!(default_pcr_index(), 18);
    assert_eq!(default_hash_algorithm(), "sha256");
    assert_eq!(default_cryptpilot_binary(), "cryptpilot");
    assert_eq!(default_config_path(), "runtime-measurer-config.toml");
}

#[test]
fn file_domain_default_config() {
    let c = FileMeasurementConfig::default();
    assert!(!c.enable);
    assert_eq!(c.pcr_index, 18);
    assert_eq!(c.hash_algorithm, "sha256");
    assert!(c.files.is_empty());
}

#[test]
fn model_dir_domain_default_config() {
    let c = ModelDirMeasurementConfig::default();
    assert!(!c.enable);
    assert_eq!(c.pcr_index, None);
    assert_eq!(c.cryptpilot_binary, "cryptpilot");
    assert!(c.directories.is_empty());
}

#[test]
fn snapshot_builder_sanity() {
    let c = snapshot(&["/a"], &["/m"]);
    assert_eq!(c.file_measurement.files, vec!["/a".to_string()]);
    assert_eq!(c.model_dir_measurement.directories, vec!["/m".to_string()]);
}
