//! Error types of the resilient client. The `Transient` / `Fatal` split lets
//! callers decide what to do: retry a transient failure later, but
//! log-and-discard a fatal one because retrying cannot help.
use vstd::prelude::*;
use crate::text::{join2, join3, to_decimal, decimal};

verus! {

/// Error returned when sending an outbound request.
#[derive(Debug, Clone)]
pub enum OutboundError {
    /// Temporary failure — retry later. Triggered by: circuit breaker open,
    /// local or upstream rate limit (HTTP 429), timeout / connection refused,
    /// HTTP 5xx, or the client shutting down.
    Transient(String),
    /// Permanent failure — retrying will not help. Triggered by: HTTP 4xx
    /// (except 429), TLS/cert failure, or an unparseable URL.
    Fatal(String),
}

impl OutboundError {
    /// Returns `true` if this error is transient (retry-eligible).
    pub fn is_transient(&self) -> (r: bool)
        ensures
            r == (self is Transient),
    {
        matches!(self, OutboundError::Transient(_))
    }

    /// Returns `true` if this error is fatal (discard).
    pub fn is_fatal(&self) -> (r: bool)
        ensures
            r == (self is Fatal),
    {
        matches!(self, OutboundError::Fatal(_))
    }

    /// Canonical error-type string for use as a metric label.
    pub fn error_type(&self) -> (r: &'static str)
        ensures
            self is Transient ==> r@ == "transient"@,
            self is Fatal ==> r@ == "fatal"@,
    {
        proof {
            reveal_strlit("transient");
            reveal_strlit("fatal");
        }
        match self {
            OutboundError::Transient(_) => "transient",
            OutboundError::Fatal(_) => "fatal",
        }
    }

    /// The human-readable message: `transient: {detail}` or `fatal: {detail}`.
    pub fn to_string(&self) -> (r: String)
        ensures
            self matches OutboundError::Transient(m) ==> r@ == "transient: "@ + m@,
            self matches OutboundError::Fatal(m) ==> r@ == "fatal: "@ + m@,
    {
        match self {
            OutboundError::Transient(m) => join2("transient: ", m.as_str()),
            OutboundError::Fatal(m) => join2("fatal: ", m.as_str()),
        }
    }
}

/// Error returned when a graceful shutdown does not drain in time.
#[derive(Debug)]
pub enum ShutdownError {
    /// The graceful-shutdown deadline elapsed with requests still in flight.
    Timeout { in_flight: usize },
}

impl ShutdownError {
    /// The human-readable message.
    pub fn to_string(&self) -> (r: String)
        ensures
            self matches ShutdownError::Timeout { in_flight } ==> r@
                == "shutdown timed out with "@ + decimal(in_flight as nat)
                + " requests still in flight"@,
    {
        match self {
            ShutdownError::Timeout { in_flight } => {
                let n = to_decimal(*in_flight as u64);
                join3("shutdown timed out with ", n.as_str(), " requests still in flight")
            },
        }
    }
}

} // verus!
