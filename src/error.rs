use vstd::prelude::*;

verus! {

/// Every failure the agent reports. Payloads are plain text, so that the
/// error can be produced and inspected without any outside type.
#[derive(Debug, Clone, PartialEq, Eq)]
pub enum MeasurementError {
    /// An I/O operation failed.
    Io(String),
    /// A glob pattern could not be parsed.
    Pattern(String),
    /// The binary RPC channel could not be set up.
    RpcClient(String),
    /// The configured hash algorithm is not one of `sha256` and `sha384`.
    UnsupportedHashAlgorithm(String),
    /// A configured directory is missing or is not a directory.
    InvalidDirectory(String),
    /// An external command could not be run, or produced no usable output.
    CommandExecution(String),
    /// The verity tool printed no root hash for the directory.
    EmptyRootHash(String),
    /// An external command ran and exited unsuccessfully: the program, its
    /// arguments, its exit code (absent when a signal ended it) and its
    /// trimmed standard error.
    CommandFailed { program: String, args: Vec<String>, code: Option<i32>, stderr: String },
    /// An HTTP request could not be sent.
    Http(String),
    /// The HTTP endpoint answered with a status outside `200..=299`.
    HttpStatus { url: String, status: u16, body: String },
    /// The configuration is unusable.
    Config(String),
    /// The binary RPC call failed.
    AttestationAgentClient(String),
    /// Any other failure.
    Other(String),
}

} // verus!
