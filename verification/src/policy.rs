//! The policy layer: which alerts call for a quarantine, and whether a
//! quarantine decision can be applied at all.

use vstd::prelude::*;
use crate::alert::{Alert, Severity};
use crate::flow::{opt_text, process_name, process_name_of, FlowEvent};

verus! {

/// An action that a policy offers for a finding.
#[derive(Debug)]
pub struct PolicyAction {
    pub id: String,
    pub description: String,
    pub severity: Severity,
    pub quarantine: bool,
}

/// What to cut off, and for how long.
#[derive(Debug)]
pub struct QuarantineDecision {
    pub process: Option<String>,
    pub ports: Vec<u16>,
    pub expires_in_seconds: u64,
}

/// How long a recommended quarantine lasts, in seconds.
pub const QUARANTINE_SECONDS: u64 = 600;

/// Why a decision was not applied.
#[derive(Debug)]
pub enum PolicyError {
    /// The decision names no port.
    NoPorts,
    /// The backend failed; the text is what it reported.
    Backend(String),
}

impl PolicyError {
    /// The text of the error as shown to an operator.
    pub open spec fn message_text(self) -> Seq<char> {
        match self {
            PolicyError::NoPorts => "quarantine must target at least one port"@,
            PolicyError::Backend(why) => why@,
        }
    }

    /// The text of the error as shown to an operator.
    pub fn message(&self) -> (r: String)
        ensures
            r@ == self.message_text(),
    {
        match self {
            PolicyError::NoPorts => "quarantine must target at least one port".to_owned(),
            PolicyError::Backend(why) => why.clone(),
        }
    }
}

/// What applies a decision to the host, and takes it back.
pub trait PolicyBackend {
    /// Puts the decision into force.
    fn apply(&self, decision: &QuarantineDecision) -> Result<(), PolicyError>;

    /// Lifts the decision.
    fn rollback(&self, decision: &QuarantineDecision) -> Result<(), PolicyError>;
}

/// A backend that does nothing and never fails.
pub struct NoopBackend;

impl Default for NoopBackend {
    fn default() -> Self {
        NoopBackend
    }
}

impl PolicyBackend for NoopBackend {
    fn apply(&self, decision: &QuarantineDecision) -> (r: Result<(), PolicyError>)
        ensures
            r is Ok,
    {
        Ok(())
    }

    fn rollback(&self, decision: &QuarantineDecision) -> (r: Result<(), PolicyError>)
        ensures
            r is Ok,
    {
        Ok(())
    }
}

/// The quarantine that an alert calls for: none below high severity; for a
/// high-severity alert the destination port of the flow and the name of its
/// process, for ten minutes.
pub fn recommend_quarantine(alert: &Alert, flow: &FlowEvent) -> (r: Option<QuarantineDecision>)
    ensures
        r is Some == (alert.severity == Severity::High),
        r matches Some(d) ==> {
            &&& d.ports@ == seq![flow.dst_port]
            &&& opt_text(d.process) == process_name(flow.process)
            &&& d.expires_in_seconds == QUARANTINE_SECONDS
        },
{
    if alert.severity == Severity::High {
        let mut ports: Vec<u16> = Vec::new();
        ports.push(flow.dst_port);
        Some(
            QuarantineDecision {
                process: process_name_of(&flow.process),
                ports,
                expires_in_seconds: QUARANTINE_SECONDS,
            },
        )
    } else {
        None
    }
}

/// A decision is valid when it names at least one port.
pub fn validate_decision(decision: &QuarantineDecision) -> (r: Result<(), PolicyError>)
    ensures
        r is Ok == (decision.ports@.len() > 0),
        r matches Err(e) ==> e is NoPorts,
{
    if decision.ports.len() == 0 {
        return Err(PolicyError::NoPorts);
    }
    Ok(())
}

} // verus!
