use vstd::prelude::*;

verus! {

/// How the attestation authority is reached.
#[derive(Debug, Clone, Copy, PartialEq, Eq)]
pub enum MeasurementChannel {
    /// A binary RPC channel over a local socket.
    UnixSocket,
    /// JSON over HTTP to an API endpoint.
    HttpApi,
}

/// One immutable snapshot of every measurement setting.
#[derive(Debug, Clone)]
pub struct Config {
    /// Address of the local socket of the attestation agent.
    pub attestation_agent_socket: String,
    /// The transport to use.
    pub aa_channel: MeasurementChannel,
    /// Base URL of the HTTP API; required when the transport is HTTP.
    pub trustiflux_api_endpoint: Option<String>,
    /// Measure once and exit instead of watching the configuration.
    pub one_shot: bool,
    pub file_measurement: FileMeasurementConfig,
    pub model_dir_measurement: ModelDirMeasurementConfig,
}

/// Settings of the file domain.
#[derive(Debug, Clone)]
pub struct FileMeasurementConfig {
    pub enable: bool,
    pub pcr_index: u32,
    /// `sha256` or `sha384`, in any letter case.
    pub hash_algorithm: String,
    /// Glob patterns, in order.
    pub files: Vec<String>,
}

/// Settings of the model-directory domain.
#[derive(Debug, Clone)]
pub struct ModelDirMeasurementConfig {
    pub enable: bool,
    /// Absent: the attestation authority picks the register.
    pub pcr_index: Option<u32>,
    /// Name or path of the external verity tool.
    pub cryptpilot_binary: String,
    /// Directories to measure, in order.
    pub directories: Vec<String>,
}

/// The register index used by the file domain when none is configured.
pub const DEFAULT_PCR_INDEX: u32 = 18;

/// Default of every enabled flag: off.
pub fn default_false() -> (r: bool)
    ensures
        r == false,
{
    false
}

/// Default register index of the file domain.
pub fn default_pcr_index() -> (r: u32)
    ensures
        r == 18,
{
    DEFAULT_PCR_INDEX
}

/// Default hash algorithm of the file domain.
pub fn default_hash_algorithm() -> (r: String)
    ensures
        r@ == "sha256"@,
{
    "sha256".to_owned()
}

/// Default external verity tool of the model-directory domain.
pub fn default_cryptpilot_binary() -> (r: String)
    ensures
        r@ == "cryptpilot"@,
{
    "cryptpilot".to_owned()
}

/// The configuration file read when no path is given.
pub fn default_config_path() -> (r: String)
    ensures
        r@ == "runtime-measurer-config.toml"@,
{
    "runtime-measurer-config.toml".to_owned()
}

impl Default for FileMeasurementConfig {
    fn default() -> (r: Self)
        ensures
            r.enable == false,
            r.pcr_index == 18,
            r.hash_algorithm@ == "sha256"@,
            r.files@.len() == 0,
    {
        FileMeasurementConfig {
            enable: default_false(),
            pcr_index: default_pcr_index(),
            hash_algorithm: default_hash_algorithm(),
            files: Vec::new(),
        }
    }
}

impl Default for ModelDirMeasurementConfig {
    fn default() -> (r: Self)
        ensures
            r.enable == false,
            r.pcr_index is None,
            r.cryptpilot_binary@ == "cryptpilot"@,
            r.directories@.len() == 0,
    {
        ModelDirMeasurementConfig {
            enable: default_false(),
            pcr_index: None,
            cryptpilot_binary: default_cryptpilot_binary(),
            directories: Vec::new(),
        }
    }
}

} // verus!
