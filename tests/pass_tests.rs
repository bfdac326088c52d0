use runtime_measurer::config::{FileMeasurementConfig, ModelDirMeasurementConfig};
use runtime_measurer::entries::PassLedger;
use runtime_measurer::error::MeasurementError;
use runtime_measurer::measure::{FileMeasurer, ModelDirMeasurer};
use sha2::Digest;

fn file_config(alg: &str, files: &[&str]) -> FileMeasurementConfig {
    FileMeasurementConfig {
        enable: true,
        pcr_index: 18,
        hash_algorithm: alg.to_string(),
        files: files.iter().map(|s| s.to_string()).collect(),
    }
}

#[test]
fn hostname_scenario_record() {
    let cfg = file_config("sha256", &["/etc/hostname"]);
    let mut pass = FileMeasurer::new().begin_pass(&cfg).unwrap();
    let path = "/etc/hostname".to_string();
    assert!(pass.ledger.take_up(&path));
    let content = b"node-1\n".to_vec();
    let rec = pass.record_for(&path, &content);
    pass.ledger.settle(&path, true);
    assert_eq!(rec.domain, "file");
    assert_eq!(rec.operation, "/etc/hostname");
    assert_eq!(rec.content, hex::encode(sha2::Sha256::digest(&content)));
    assert_eq!(rec.register_index, Some(18));
    let report = pass.ledger.report();
    assert_eq!(report.measured, vec![path]);
    assert!(!report.has_errors());
}

#[test]
fn md5_fails_the_whole_pass() {
    let cfg = file_config("md5", &["/etc/hostname"]);
    match FileMeasurer::new().begin_pass(&cfg) {
        Err(MeasurementError::UnsupportedHashAlgorithm(n)) => assert_eq!(n, "md5"),
        _ => panic!("md5 must be refused"),
    }
}

#[test]
fn sha384_pass_uses_sha384() {
    let cfg = file_config("sha384", &[]);
    let pass = FileMeasurer::new().begin_pass(&cfg).unwrap();
    let rec = pass.record_for(&"/f".to_string(), b"abc");
    assert_eq!(rec.content.len(), 96);
}

#[test]
fn same_file_twice_is_measured_once() {
    let mut ledger = PassLedger::new();
    let k = "/etc/hostname".to_string();
    assert!(ledger.take_up(&k));
    ledger.settle(&k, true);
    assert!(!ledger.take_up(&k));
    let report = ledger.report();
    assert_eq!(report.measured, vec![k]);
    assert!(report.failed.is_empty());
}

#[test]
fn missing_file_does_not_abort_the_pass() {
    let mut ledger = PassLedger::new();
    let files = ["/a", "/b", "/c"];
    for (i, f) in files.iter().enumerate() {
        let k = f.to_string();
        assert!(ledger.take_up(&k));
        ledger.settle(&k, i != 1);
    }
    let report = ledger.report();
    assert_eq!(report.measured, vec!["/a".to_string(), "/c".to_string()]);
    assert_eq!(report.failed, vec!["/b".to_string()]);
    assert!(report.has_errors());
}

#[test]
fn invalid_pattern_is_counted_as_failure() {
    let mut ledger = PassLedger::new();
    ledger.note_failure(&"[".to_string());
    let report = ledger.report();
    assert!(report.has_errors());
    assert!(report.measured.is_empty());
}

fn dir_config(pcr: Option<u32>) -> ModelDirMeasurementConfig {
    ModelDirMeasurementConfig {
        enable: true,
        pcr_index: pcr,
        cryptpilot_binary: "cryptpilot".to_string(),
        directories: vec!["/models/x".to_string(), "/models/y".to_string()],
    }
}

#[test]
fn tool_failure_skips_only_that_directory() {
    let mut pass = ModelDirMeasurer::new().begin_pass(&dir_config(None));
    let x = "/models/x".to_string();
    assert!(pass.ledger.take_up(&x));
    let args = pass.dump_args(&x);
    match pass.check_exit(&args, false, Some(2), b"verity: no such device\n") {
        Err(MeasurementError::CommandFailed { program, args: a, code, stderr }) => {
            assert_eq!(program, "cryptpilot");
            assert_eq!(a, args);
            assert_eq!(code, Some(2));
            assert_eq!(stderr, "verity: no such device");
        }
        _ => panic!("a failed exit must be an error"),
    }
    pass.ledger.settle(&x, false);
    let y = "/models/y".to_string();
    assert!(pass.ledger.take_up(&y));
    assert_eq!(pass.check_exit(&pass.dump_args(&y), true, Some(0), b""), Ok(()));
    let hash = pass.root_hash(&y, b"  abcd1234\n").unwrap();
    assert_eq!(hash, "abcd1234");
    let rec = pass.record_for(&y, hash);
    assert_eq!(rec.domain, "model_dir");
    assert_eq!(rec.operation, "/models/y");
    assert_eq!(rec.register_index, None);
    pass.ledger.settle(&y, true);
    let report = pass.ledger.report();
    assert_eq!(report.measured, vec![y]);
    assert_eq!(report.failed, vec![x]);
    assert!(report.has_errors());
}

#[test]
fn empty_root_hash_is_an_error() {
    let pass = ModelDirMeasurer::new().begin_pass(&dir_config(Some(9)));
    let d = "/models/x".to_string();
    assert_eq!(pass.root_hash(&d, b" \n\t"), Err(MeasurementError::EmptyRootHash(d.clone())));
    assert_eq!(pass.register_index, Some(9));
}

#[test]
fn verity_tool_arguments() {
    let pass = ModelDirMeasurer::new().begin_pass(&dir_config(None));
    let d = "/models/x".to_string();
    let out = "/tmp/h".to_string();
    assert_eq!(pass.format_args(&d, &out), vec!["verity", "format", "/models/x", "--hash-output", "/tmp/h"]);
    assert_eq!(pass.dump_args(&d), vec!["verity", "dump", "--data-dir", "/models/x", "--print-root-hash"]);
}

#[test]
fn directory_resolution() {
    let pass = ModelDirMeasurer::new().begin_pass(&dir_config(None));
    let d = "models/x".to_string();
    assert_eq!(pass.resolve_directory(&d, None, false), Err(MeasurementError::InvalidDirectory(d.clone())));
    assert_eq!(
        pass.resolve_directory(&d, Some("/srv/models/x".to_string()), false),
        Err(MeasurementError::InvalidDirectory("/srv/models/x".to_string()))
    );
    assert_eq!(pass.resolve_directory(&d, Some("/srv/models/x".to_string()), true), Ok("/srv/models/x".to_string()));
}

#[test]
fn root_hash_trims_unicode_white_space() {
    let pass = ModelDirMeasurer::new().begin_pass(&dir_config(None));
    let d = "/models/x".to_string();
    let out = "\u{3000}\u{a0} 0f1e \u{2028}\n".as_bytes();
    assert_eq!(pass.root_hash(&d, out), Ok("0f1e".to_string()));
}

#[test]
fn tool_killed_by_signal_has_no_exit_code() {
    let pass = ModelDirMeasurer::new().begin_pass(&dir_config(None));
    let args = vec!["verity".to_string()];
    match pass.check_exit(&args, false, None, b"") {
        Err(MeasurementError::CommandFailed { code, stderr, .. }) => {
            assert_eq!(code, None);
            assert_eq!(stderr, "");
        }
        _ => panic!("a failed exit must be an error"),
    }
}

#[test]
fn file_pass_offers_regular_files_once() {
    let cfg = file_config("sha256", &["/etc/*"]);
    let mut pass = FileMeasurer::new().begin_pass(&cfg).unwrap();
    let dir = "/etc/ssl".to_string();
    let f = "/etc/hostname".to_string();
    assert!(!pass.offer(&dir, false));
    assert!(pass.offer(&f, true));
    assert!(!pass.offer(&f, true));
    let rec = pass.on_read(&f, Some(b"abc".as_slice())).unwrap();
    assert_eq!(rec.content, "ba7816bf8f01cfea414140de5dae2223b00361a396177a9cb410ff61f20015ad");
    pass.ledger.settle(&f, true);
    let report = pass.ledger.report();
    assert_eq!(report.measured, vec![f]);
    assert!(!report.has_errors());
}

#[test]
fn file_pass_unreadable_file_counts_as_failed() {
    let cfg = file_config("sha256", &["/a", "/b"]);
    let mut pass = FileMeasurer::new().begin_pass(&cfg).unwrap();
    let a = "/a".to_string();
    let b = "/b".to_string();
    assert!(pass.offer(&a, true));
    assert!(pass.on_read(&a, None).is_none());
    assert!(pass.offer(&b, true));
    let rec = pass.on_read(&b, Some(b"".as_slice())).unwrap();
    assert_eq!(rec.content.len(), 64);
    pass.ledger.settle(&b, true);
    let report = pass.ledger.report();
    assert_eq!(report.measured, vec![b]);
    assert_eq!(report.failed, vec![a]);
    assert!(report.has_errors());
}
