use runtime_measurer::client::{
    aael_url, extend_request, http_outcome, rpc_outcome, select_transport, Transport, RPC_TIMEOUT_NANO,
};
use runtime_measurer::config::{Config, FileMeasurementConfig, MeasurementChannel, ModelDirMeasurementConfig};
use runtime_measurer::error::MeasurementError;
use runtime_measurer::measure::MeasurementRecord;

fn config(channel: MeasurementChannel, endpoint: Option<&str>) -> Config {
    Config {
        attestation_agent_socket: "/run/aa.sock".to_string(),
        aa_channel: channel,
        trustiflux_api_endpoint: endpoint.map(|s| s.to_string()),
        one_shot: true,
        file_measurement: FileMeasurementConfig::default(),
        model_dir_measurement: ModelDirMeasurementConfig::default(),
    }
}

#[test]
fn socket_transport_selected() {
    assert_eq!(
        select_transport(&config(MeasurementChannel::UnixSocket, None)),
        Ok(Transport::UnixSocket { socket: "/run/aa.sock".to_string() })
    );
}

#[test]
fn http_transport_needs_endpoint() {
    assert_eq!(
        select_transport(&config(MeasurementChannel::HttpApi, Some("http://127.0.0.1:8006"))),
        Ok(Transport::Http { base_url: "http://127.0.0.1:8006".to_string() })
    );
    assert!(matches!(
        select_transport(&config(MeasurementChannel::HttpApi, None)),
        Err(MeasurementError::Config(_))
    ));
}

#[test]
fn aael_url_strips_trailing_slashes() {
    assert_eq!(aael_url("http://h:1"), "http://h:1/aa/aael");
    assert_eq!(aael_url("http://h:1//"), "http://h:1/aa/aael");
}

#[test]
fn both_transports_accept_and_reject_alike() {
    let url = "http://h/aa/aael".to_string();
    assert_eq!(http_outcome(&url, 200, String::new()), Ok(()));
    assert_eq!(http_outcome(&url, 204, String::new()), Ok(()));
    assert_eq!(rpc_outcome(Ok(())), Ok(()));
    assert_eq!(
        http_outcome(&url, 500, "boom".to_string()),
        Err(MeasurementError::HttpStatus { url: url.clone(), status: 500, body: "boom".to_string() })
    );
    assert!(http_outcome(&url, 300, String::new()).is_err());
    assert!(http_outcome(&url, 199, String::new()).is_err());
    assert_eq!(
        rpc_outcome(Err("denied".to_string())),
        Err(MeasurementError::AttestationAgentClient("denied".to_string()))
    );
}

#[test]
fn extend_request_carries_record_unchanged() {
    let rec = MeasurementRecord {
        register_index: None,
        domain: "file".to_string(),
        operation: "/a".to_string(),
        content: "00".to_string(),
    };
    let req = extend_request(&rec);
    assert_eq!(req.domain, "file");
    assert_eq!(req.operation, "/a");
    assert_eq!(req.content, "00");
    assert_eq!(req.register_index, None);
}

#[test]
fn extend_request_wire_bytes() {
    let req = runtime_measurer::client::ExtendRequest {
        domain: "file".to_string(),
        operation: "/a".to_string(),
        content: "00".to_string(),
        register_index: Some(18),
    };
    let expected: Vec<u8> = vec![
        0x0a, 4, b'f', b'i', b'l', b'e', 0x12, 2, b'/', b'a', 0x1a, 2, b'0', b'0', 0x20, 18,
    ];
    assert_eq!(runtime_measurer::wire::encode_extend_request(&req), expected);
}

#[test]
fn extend_request_wire_bytes_without_register_and_with_long_varint() {
    let mut req = runtime_measurer::client::ExtendRequest {
        domain: "model_dir".to_string(),
        operation: String::new(),
        content: "ab".to_string(),
        register_index: None,
    };
    let mut expected: Vec<u8> = vec![0x0a, 9];
    expected.extend_from_slice(b"model_dir");
    expected.extend_from_slice(&[0x1a, 2, b'a', b'b']);
    assert_eq!(runtime_measurer::wire::encode_extend_request(&req), expected);
    req.register_index = Some(300);
    expected.extend_from_slice(&[0x20, 0xac, 0x02]);
    assert_eq!(runtime_measurer::wire::encode_extend_request(&req), expected);
}

#[test]
fn rpc_timeout_is_five_seconds() {
    assert_eq!(RPC_TIMEOUT_NANO, 5_000_000_000);
}
