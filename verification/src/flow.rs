//! The records that travel through the pipeline: a flow as the collector saw
//! it, and the identity of the process that owns it.

use vstd::prelude::*;
use crate::time::Timestamp;

verus! {

/// The text held by an optional string.
pub open spec fn opt_text(o: Option<String>) -> Option<Seq<char>> {
    match o {
        Some(s) => Some(s@),
        None => None,
    }
}

/// A copy of an optional string.
pub fn copy_opt_text(o: &Option<String>) -> (r: Option<String>)
    ensures
        r == *o,
{
    match o {
        Some(s) => Some(s.clone()),
        None => None,
    }
}

/// Which neighbour-discovery protocol a layer-2 event belongs to.
#[derive(Debug, Clone, Copy, PartialEq, Eq, Hash, Structural)]
pub enum Layer2EventKind {
    Arp,
    Nd,
}

/// What was seen of an ARP or ND exchange.
#[derive(Debug)]
pub struct Layer2EventMetadata {
    pub kind: Layer2EventKind,
    pub operation: String,
    pub mac_src: Option<String>,
    pub ip_src: Option<String>,
    pub mac_dst: Option<String>,
    pub ip_dst: Option<String>,
}

impl Clone for Layer2EventMetadata {
    fn clone(&self) -> (r: Self)
        ensures
            r == *self,
    {
        Layer2EventMetadata {
            kind: self.kind,
            operation: self.operation.clone(),
            mac_src: copy_opt_text(&self.mac_src),
            ip_src: copy_opt_text(&self.ip_src),
            mac_dst: copy_opt_text(&self.mac_dst),
            ip_dst: copy_opt_text(&self.ip_dst),
        }
    }
}

/// Whether `c` is a lower-case hexadecimal digit.
pub open spec fn is_lower_hex(c: char) -> bool {
    ('0' <= c <= '9') || ('a' <= c <= 'f')
}

/// Whether a text is a short hash: exactly sixteen lower-case hexadecimal
/// digits.
pub open spec fn is_short_hash(t: Seq<char>) -> bool {
    t.len() == 16 && forall|i: int| 0 <= i < 16 ==> is_lower_hex(#[trigger] t[i])
}

/// The process that owns a socket.
#[derive(Debug)]
pub struct ProcessIdentity {
    pub pid: i32,
    pub ppid: Option<i32>,
    pub name: Option<String>,
    pub exe_path: Option<String>,
    pub sha256_16: Option<String>,
    pub user: Option<String>,
    pub signed: Option<bool>,
}

/// A [`ProcessIdentity`] with its strings as texts.
pub struct ProcessIdentityView {
    pub pid: i32,
    pub ppid: Option<i32>,
    pub name: Option<Seq<char>>,
    pub exe_path: Option<Seq<char>>,
    pub sha256_16: Option<Seq<char>>,
    pub user: Option<Seq<char>>,
    pub signed: Option<bool>,
}

impl View for ProcessIdentity {
    type V = ProcessIdentityView;

    open spec fn view(&self) -> ProcessIdentityView {
        ProcessIdentityView {
            pid: self.pid,
            ppid: self.ppid,
            name: opt_text(self.name),
            exe_path: opt_text(self.exe_path),
            sha256_16: opt_text(self.sha256_16),
            user: opt_text(self.user),
            signed: self.signed,
        }
    }
}

impl ProcessIdentity {
    /// The hash of the executable, where there is one, is a short hash.
    pub open spec fn wf(self) -> bool {
        match self.sha256_16 {
            Some(h) => is_short_hash(h@),
            None => true,
        }
    }
}

impl Clone for ProcessIdentity {
    fn clone(&self) -> (r: Self)
        ensures
            r == *self,
    {
        ProcessIdentity {
            pid: self.pid,
            ppid: self.ppid,
            name: copy_opt_text(&self.name),
            exe_path: copy_opt_text(&self.exe_path),
            sha256_16: copy_opt_text(&self.sha256_16),
            user: copy_opt_text(&self.user),
            signed: self.signed,
        }
    }
}

/// The view of an optional process identity.
pub open spec fn opt_process(o: Option<ProcessIdentity>) -> Option<ProcessIdentityView> {
    match o {
        Some(p) => Some(p@),
        None => None,
    }
}

/// The name of the process behind a flow, where both are known.
pub open spec fn process_name(o: Option<ProcessIdentity>) -> Option<Seq<char>> {
    match o {
        Some(p) => opt_text(p.name),
        None => None,
    }
}

/// Executable [`process_name`]: a copy of the name.
pub fn process_name_of(o: &Option<ProcessIdentity>) -> (r: Option<String>)
    ensures
        opt_text(r) == process_name(*o),
{
    match o {
        Some(p) => copy_opt_text(&p.name),
        None => None,
    }
}

/// A risk verdict attached to a flow before it is handed on.
#[derive(Debug)]
pub struct FlowRisk {
    pub score: u8,
    pub level: String,
    pub rule_id: Option<String>,
    pub rationale: Option<String>,
}

/// A [`FlowRisk`] with its strings as texts.
pub struct FlowRiskView {
    pub score: u8,
    pub level: Seq<char>,
    pub rule_id: Option<Seq<char>>,
    pub rationale: Option<Seq<char>>,
}

impl View for FlowRisk {
    type V = FlowRiskView;

    open spec fn view(&self) -> FlowRiskView {
        FlowRiskView {
            score: self.score,
            level: self.level@,
            rule_id: opt_text(self.rule_id),
            rationale: opt_text(self.rationale),
        }
    }
}

impl Clone for FlowRisk {
    fn clone(&self) -> (r: Self)
        ensures
            r == *self,
    {
        FlowRisk {
            score: self.score,
            level: self.level.clone(),
            rule_id: copy_opt_text(&self.rule_id),
            rationale: copy_opt_text(&self.rationale),
        }
    }
}

/// The view of an optional risk verdict.
pub open spec fn opt_risk(o: Option<FlowRisk>) -> Option<FlowRiskView> {
    match o {
        Some(r) => Some(r@),
        None => None,
    }
}

/// Where a flow is headed, seen from this host.
#[derive(Debug, Clone, Copy, PartialEq, Eq, Structural)]
pub enum FlowDirection {
    Inbound,
    Outbound,
    Lateral,
}

/// One observed flow: a 5-tuple with its counters and what is known around it.
#[derive(Debug)]
pub struct FlowEvent {
    pub ts_first: Timestamp,
    pub ts_last: Timestamp,
    pub proto: String,
    pub src_ip: String,
    pub src_port: u16,
    pub dst_ip: String,
    pub dst_port: u16,
    pub iface: Option<String>,
    pub direction: FlowDirection,
    pub state: Option<String>,
    pub bytes: u64,
    pub packets: u64,
    pub process: Option<ProcessIdentity>,
    pub layer2: Option<Layer2EventMetadata>,
    pub risk: Option<FlowRisk>,
    pub sni: Option<String>,
    pub alpn: Option<String>,
    pub ja3: Option<String>,
    pub dns_qname: Option<String>,
    pub dns_qtype: Option<String>,
    pub dns_rcode: Option<String>,
}

/// A [`FlowEvent`] with its strings as texts.
pub struct FlowEventView {
    pub ts_first: Timestamp,
    pub ts_last: Timestamp,
    pub proto: Seq<char>,
    pub src_ip: Seq<char>,
    pub src_port: u16,
    pub dst_ip: Seq<char>,
    pub dst_port: u16,
    pub iface: Option<Seq<char>>,
    pub direction: FlowDirection,
    pub state: Option<Seq<char>>,
    pub bytes: u64,
    pub packets: u64,
    pub process: Option<ProcessIdentityView>,
    pub layer2: Option<Layer2EventMetadata>,
    pub risk: Option<FlowRiskView>,
    pub sni: Option<Seq<char>>,
    pub alpn: Option<Seq<char>>,
    pub ja3: Option<Seq<char>>,
    pub dns_qname: Option<Seq<char>>,
    pub dns_qtype: Option<Seq<char>>,
    pub dns_rcode: Option<Seq<char>>,
}

impl View for FlowEvent {
    type V = FlowEventView;

    open spec fn view(&self) -> FlowEventView {
        FlowEventView {
            ts_first: self.ts_first,
            ts_last: self.ts_last,
            proto: self.proto@,
            src_ip: self.src_ip@,
            src_port: self.src_port,
            dst_ip: self.dst_ip@,
            dst_port: self.dst_port,
            iface: opt_text(self.iface),
            direction: self.direction,
            state: opt_text(self.state),
            bytes: self.bytes,
            packets: self.packets,
            process: opt_process(self.process),
            layer2: self.layer2,
            risk: opt_risk(self.risk),
            sni: opt_text(self.sni),
            alpn: opt_text(self.alpn),
            ja3: opt_text(self.ja3),
            dns_qname: opt_text(self.dns_qname),
            dns_qtype: opt_text(self.dns_qtype),
            dns_rcode: opt_text(self.dns_rcode),
        }
    }
}

/// The flow that nothing has been seen of yet: epoch times, empty addresses,
/// zero ports and counters, inbound, and nothing known around it.
pub open spec fn blank_flow() -> FlowEventView {
    FlowEventView {
        ts_first: Timestamp { secs: 0, nanos: 0 },
        ts_last: Timestamp { secs: 0, nanos: 0 },
        proto: Seq::empty(),
        src_ip: Seq::empty(),
        src_port: 0,
        dst_ip: Seq::empty(),
        dst_port: 0,
        iface: None,
        direction: FlowDirection::Inbound,
        state: None,
        bytes: 0,
        packets: 0,
        process: None,
        layer2: None,
        risk: None,
        sni: None,
        alpn: None,
        ja3: None,
        dns_qname: None,
        dns_qtype: None,
        dns_rcode: None,
    }
}

impl Default for FlowEvent {
    fn default() -> (r: Self)
        ensures
            r@ == blank_flow(),
    {
        FlowEvent {
            ts_first: Timestamp::epoch(),
            ts_last: Timestamp::epoch(),
            proto: String::new(),
            src_ip: String::new(),
            src_port: 0,
            dst_ip: String::new(),
            dst_port: 0,
            iface: None,
            direction: FlowDirection::Inbound,
            state: None,
            bytes: 0,
            packets: 0,
            process: None,
            layer2: None,
            risk: None,
            sni: None,
            alpn: None,
            ja3: None,
            dns_qname: None,
            dns_qtype: None,
            dns_rcode: None,
        }
    }
}

impl Clone for FlowEvent {
    fn clone(&self) -> (r: Self)
        ensures
            r == *self,
    {
        FlowEvent {
            ts_first: self.ts_first,
            ts_last: self.ts_last,
            proto: self.proto.clone(),
            src_ip: self.src_ip.clone(),
            src_port: self.src_port,
            dst_ip: self.dst_ip.clone(),
            dst_port: self.dst_port,
            iface: copy_opt_text(&self.iface),
            direction: self.direction,
            state: copy_opt_text(&self.state),
            bytes: self.bytes,
            packets: self.packets,
            process: match &self.process {
                Some(p) => Some(p.clone()),
                None => None,
            },
            layer2: match &self.layer2 {
                Some(l) => Some(l.clone()),
                None => None,
            },
            risk: match &self.risk {
                Some(k) => Some(k.clone()),
                None => None,
            },
            sni: copy_opt_text(&self.sni),
            alpn: copy_opt_text(&self.alpn),
            ja3: copy_opt_text(&self.ja3),
            dns_qname: copy_opt_text(&self.dns_qname),
            dns_qtype: copy_opt_text(&self.dns_qtype),
            dns_rcode: copy_opt_text(&self.dns_rcode),
        }
    }
}

/// Why a collector could not do what was asked of it.
#[derive(Debug)]
pub enum CollectorError {
    /// The platform lacks the named feature.
    Unsupported(String),
    /// The collector could not be brought up.
    Initialization(String),
    /// An operation on the host failed.
    Io(String),
}

impl CollectorError {
    /// The text of the error as shown to an operator.
    pub open spec fn message_text(self) -> Seq<char> {
        match self {
            CollectorError::Unsupported(what) => "feature not supported on this platform: "@ + what@,
            CollectorError::Initialization(why) => "initialization failed: "@ + why@,
            CollectorError::Io(why) => "io error: "@ + why@,
        }
    }

    /// The text of the error as shown to an operator.
    pub fn message(&self) -> (r: String)
        ensures
            r@ == self.message_text(),
    {
        let mut out = String::new();
        match self {
            CollectorError::Unsupported(what) => {
                crate::text::push_text(&mut out, "feature not supported on this platform: ");
                crate::text::push_text(&mut out, what.as_str());
            },
            CollectorError::Initialization(why) => {
                crate::text::push_text(&mut out, "initialization failed: ");
                crate::text::push_text(&mut out, why.as_str());
            },
            CollectorError::Io(why) => {
                crate::text::push_text(&mut out, "io error: ");
                crate::text::push_text(&mut out, why.as_str());
            },
        }
        out
    }
}

} // verus!
