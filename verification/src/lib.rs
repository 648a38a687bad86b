//! A host-resident network monitor: flows are collected, classified, checked
//! for anomalies, normalized, held against rules, and stored under seal.

pub mod actions;
pub mod address;
pub mod alert;
pub mod analyzer;
pub mod anomaly;
pub mod collector;
pub mod dsl;
pub mod flow;
pub mod monitor;
pub mod netstat;
pub mod normalizer;
pub mod policy;
pub mod process;
pub mod protocol;
pub mod recency;
pub mod storage;
pub mod text;
pub mod time;

pub use crate::actions::{ActionError, ActionHandler, ActionKind, HostCommand};
pub use crate::alert::{Alert, Severity};
pub use crate::analyzer::{detect_listener, detect_listener_at, Analyzer};
pub use crate::anomaly::{Anomaly, AnomalyDetector};
pub use crate::collector::{sample_listener_event, sample_listener_event_at};
pub use crate::dsl::{apply_operator, evaluate_expression, DslError, Rule};
pub use crate::flow::{
    CollectorError, FlowDirection, FlowEvent, FlowRisk, Layer2EventKind, Layer2EventMetadata,
    ProcessIdentity,
};
pub use crate::monitor::NetworkMonitor;
pub use crate::normalizer::{NormalizeError, NormalizedFlow, Normalizer};
pub use crate::policy::{
    recommend_quarantine, validate_decision, NoopBackend, PolicyAction, PolicyBackend, PolicyError,
    QuarantineDecision,
};
pub use crate::process::ProcessInfoCollector;
pub use crate::protocol::{LocalProtocol, ProtocolDetector};
pub use crate::storage::{Storage, StorageError, StoredFlow};
pub use crate::time::{Duration, Timestamp};
