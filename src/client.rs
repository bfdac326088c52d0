use vstd::prelude::*;
use vstd::string::StringExecFns;
use crate::config::{Config, MeasurementChannel};
use crate::error::MeasurementError;
use crate::measure::MeasurementRecord;

verus! {

/// Timeout of one call on the binary channel: five seconds, in nanoseconds.
pub const RPC_TIMEOUT_NANO: i64 = 5_000_000_000;

/// How to reach the attestation authority, chosen once at startup.
#[derive(Debug, Clone, PartialEq, Eq)]
pub enum Transport {
    /// The binary RPC channel on this local socket.
    UnixSocket { socket: String },
    /// The HTTP API under this base URL.
    Http { base_url: String },
}

/// Chooses the transport from a snapshot: the HTTP API needs its endpoint.
pub fn select_transport(cfg: &Config) -> (r: Result<Transport, MeasurementError>)
    ensures
        cfg.aa_channel is UnixSocket ==> r == Ok::<Transport, MeasurementError>(Transport::UnixSocket { socket: cfg.attestation_agent_socket }),
        cfg.aa_channel is HttpApi && cfg.trustiflux_api_endpoint is Some ==> r == Ok::<Transport, MeasurementError>(Transport::Http { base_url: cfg.trustiflux_api_endpoint.unwrap() }),
        cfg.aa_channel is HttpApi && cfg.trustiflux_api_endpoint is None ==> r matches Err(MeasurementError::Config(_)),
{
    match cfg.aa_channel {
        MeasurementChannel::UnixSocket => Ok(Transport::UnixSocket { socket: cfg.attestation_agent_socket.clone() }),
        MeasurementChannel::HttpApi => match &cfg.trustiflux_api_endpoint {
            Some(u) => Ok(Transport::Http { base_url: u.clone() }),
            None => Err(MeasurementError::Config("trustiflux_api_endpoint must be set when measurement_channel=http_api".to_owned())),
        },
    }
}

/// A text without its trailing occurrences of `c`.
pub open spec fn without_trailing(s: Seq<char>, c: char) -> Seq<char>
    decreases s.len(),
{
    if s.len() > 0 && s.last() == c {
        without_trailing(s.drop_last(), c)
    } else {
        s
    }
}

/// Relies on str::trim_end_matches with a `char` pattern: every trailing `c` removed.
#[verifier::external_body]
fn trim_end_char(s: &str, c: char) -> (r: String)
    ensures
        r@ == without_trailing(s@, c),
{
    s.trim_end_matches(c).to_owned()
}

/// The URL that measurement records are posted to.
pub fn aael_url(base_url: &str) -> (r: String)
    ensures
        r@ == without_trailing(base_url@, '/') + "/aa/aael"@,
{
    let mut u = trim_end_char(base_url, '/');
    u.append("/aa/aael");
    u
}

/// Whether an HTTP status is a success (2xx).
pub open spec fn http_accepted(status: u16) -> bool {
    200 <= status <= 299
}

/// What the HTTP transport reports for an answer of the endpoint.
pub open spec fn http_outcome_spec(url: String, status: u16, body: String) -> Result<(), MeasurementError> {
    if http_accepted(status) {
        Ok(())
    } else {
        Err(MeasurementError::HttpStatus { url, status, body })
    }
}

/// What the binary channel reports for an answer of the agent.
pub open spec fn rpc_outcome_spec(answer: Result<(), String>) -> Result<(), MeasurementError> {
    match answer {
        Ok(()) => Ok(()),
        Err(m) => Err(MeasurementError::AttestationAgentClient(m)),
    }
}

/// Judges the HTTP endpoint's answer: a 2xx status is success, any other
/// status an error that carries the URL, the status and the body.
pub fn http_outcome(url: &String, status: u16, body: String) -> (r: Result<(), MeasurementError>)
    ensures
        r == http_outcome_spec(*url, status, body),
{
    if 200 <= status && status <= 299 {
        Ok(())
    } else {
        Err(MeasurementError::HttpStatus { url: url.clone(), status, body })
    }
}

/// Judges the binary channel's answer: success, or the channel's error text.
pub fn rpc_outcome(answer: Result<(), String>) -> (r: Result<(), MeasurementError>)
    ensures
        r == rpc_outcome_spec(answer),
{
    match answer {
        Ok(()) => Ok(()),
        Err(m) => Err(MeasurementError::AttestationAgentClient(m)),
    }
}

/// The request of the extend operation, the same for both transports; the
/// register index stays absent when the record has none.
#[derive(Debug, Clone, PartialEq, Eq)]
pub struct ExtendRequest {
    pub domain: String,
    pub operation: String,
    pub content: String,
    pub register_index: Option<u64>,
}

/// The extend request for a record; no field is reinterpreted.
pub fn extend_request(rec: &MeasurementRecord) -> (r: ExtendRequest)
    ensures
        r.domain == rec.domain,
        r.operation == rec.operation,
        r.content == rec.content,
        r.register_index == rec.register_index,
{
    ExtendRequest {
        domain: rec.domain.clone(),
        operation: rec.operation.clone(),
        content: rec.content.clone(),
        register_index: rec.register_index,
    }
}

/// Transport equivalence: when the HTTP endpoint and the agent both accept,
/// or both reject, the two transports report the same success or failure,
/// and a rejection carries what the backend said.
pub proof fn lemma_transports_agree(url: String, status: u16, body: String, answer: Result<(), String>)
    requires
        http_accepted(status) == (answer is Ok),
    ensures
        http_outcome_spec(url, status, body) is Ok == rpc_outcome_spec(answer) is Ok,
        http_outcome_spec(url, status, body) matches Err(MeasurementError::HttpStatus { url: u, status: s, body: b })
            ==> u == url && s == status && b == body,
        rpc_outcome_spec(answer) matches Err(MeasurementError::AttestationAgentClient(m)) ==> answer == Err::<(), String>(m),
{
}

} // verus!
