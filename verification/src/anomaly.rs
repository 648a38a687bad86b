//! The anomaly detector: what a flow looks like against what was seen before.
//!
//! The detector keeps three tables: the listeners it has met, the DNS names
//! that were asked for, and the pairs of hosts that talked. Each table has a
//! fixed capacity of 4096 entries and is kept in order, because forgetting
//! needs an order: the listener table forgets its oldest entry first; the two
//! others forget the entry that was touched least recently.

use vstd::prelude::*;
use std::collections::HashSet;
use crate::analyzer::{is_listener, listens};
use crate::flow::{
    copy_opt_text, opt_text, FlowDirection, FlowEvent, ProcessIdentity, ProcessIdentityView,
};
use crate::protocol::{
    dns_ports, protocol_name, protocol_of, LocalProtocol, ProtocolDetector,
};
use crate::recency::{distinct_keys, find_key, lemma_find_key, lemma_stored, lookup, stored, without, RecencyTable};
use crate::text::{
    chars_of, contains, contains_text, has_prefix, is_digit, lowercase, lowered, push_text, split,
    split_on, str_eq, texts,
};
use crate::time::{wall_clock, Timestamp};

verus! {

/// A finding of the detector.
#[derive(Debug, PartialEq, Eq)]
pub enum Anomaly {
    HiddenListener { pid: i32, port: u16, process_name: Option<String> },
    UnexpectedP2P { src_ip: String, dst_ip: String, dst_port: u16 },
    ArpSpoofing { ip: String, old_mac: String, new_mac: String },
    PortScanning { src_ip: String, target_ip: String, port_count: usize },
    LateralMovement { src_ip: String, dst_ip: String, protocol: String },
    SuspiciousDns { domain: String, reason: String },
    LocalProxy { pid: i32, port: u16, process_name: Option<String> },
    UnexpectedMulticast { protocol: String, dst_ip: String },
}

/// An [`Anomaly`] with its strings as texts.
pub enum AnomalyView {
    HiddenListener { pid: i32, port: u16, process_name: Option<Seq<char>> },
    UnexpectedP2P { src_ip: Seq<char>, dst_ip: Seq<char>, dst_port: u16 },
    ArpSpoofing { ip: Seq<char>, old_mac: Seq<char>, new_mac: Seq<char> },
    PortScanning { src_ip: Seq<char>, target_ip: Seq<char>, port_count: usize },
    LateralMovement { src_ip: Seq<char>, dst_ip: Seq<char>, protocol: Seq<char> },
    SuspiciousDns { domain: Seq<char>, reason: Seq<char> },
    LocalProxy { pid: i32, port: u16, process_name: Option<Seq<char>> },
    UnexpectedMulticast { protocol: Seq<char>, dst_ip: Seq<char> },
}

impl View for Anomaly {
    type V = AnomalyView;

    open spec fn view(&self) -> AnomalyView {
        match self {
            Anomaly::HiddenListener { pid, port, process_name } => AnomalyView::HiddenListener {
                pid: *pid,
                port: *port,
                process_name: opt_text(*process_name),
            },
            Anomaly::UnexpectedP2P { src_ip, dst_ip, dst_port } => AnomalyView::UnexpectedP2P {
                src_ip: src_ip@,
                dst_ip: dst_ip@,
                dst_port: *dst_port,
            },
            Anomaly::ArpSpoofing { ip, old_mac, new_mac } => AnomalyView::ArpSpoofing {
                ip: ip@,
                old_mac: old_mac@,
                new_mac: new_mac@,
            },
            Anomaly::PortScanning { src_ip, target_ip, port_count } => AnomalyView::PortScanning {
                src_ip: src_ip@,
                target_ip: target_ip@,
                port_count: *port_count,
            },
            Anomaly::LateralMovement { src_ip, dst_ip, protocol } => AnomalyView::LateralMovement {
                src_ip: src_ip@,
                dst_ip: dst_ip@,
                protocol: protocol@,
            },
            Anomaly::SuspiciousDns { domain, reason } => AnomalyView::SuspiciousDns {
                domain: domain@,
                reason: reason@,
            },
            Anomaly::LocalProxy { pid, port, process_name } => AnomalyView::LocalProxy {
                pid: *pid,
                port: *port,
                process_name: opt_text(*process_name),
            },
            Anomaly::UnexpectedMulticast { protocol, dst_ip } => AnomalyView::UnexpectedMulticast {
                protocol: protocol@,
                dst_ip: dst_ip@,
            },
        }
    }
}

impl Clone for Anomaly {
    fn clone(&self) -> (r: Self)
        ensures
            r@ == self@,
    {
        match self {
            Anomaly::HiddenListener { pid, port, process_name } => Anomaly::HiddenListener {
                pid: *pid,
                port: *port,
                process_name: copy_opt_text(process_name),
            },
            Anomaly::UnexpectedP2P { src_ip, dst_ip, dst_port } => Anomaly::UnexpectedP2P {
                src_ip: src_ip.clone(),
                dst_ip: dst_ip.clone(),
                dst_port: *dst_port,
            },
            Anomaly::ArpSpoofing { ip, old_mac, new_mac } => Anomaly::ArpSpoofing {
                ip: ip.clone(),
                old_mac: old_mac.clone(),
                new_mac: new_mac.clone(),
            },
            Anomaly::PortScanning { src_ip, target_ip, port_count } => Anomaly::PortScanning {
                src_ip: src_ip.clone(),
                target_ip: target_ip.clone(),
                port_count: *port_count,
            },
            Anomaly::LateralMovement { src_ip, dst_ip, protocol } => Anomaly::LateralMovement {
                src_ip: src_ip.clone(),
                dst_ip: dst_ip.clone(),
                protocol: protocol.clone(),
            },
            Anomaly::SuspiciousDns { domain, reason } => Anomaly::SuspiciousDns {
                domain: domain.clone(),
                reason: reason.clone(),
            },
            Anomaly::LocalProxy { pid, port, process_name } => Anomaly::LocalProxy {
                pid: *pid,
                port: *port,
                process_name: copy_opt_text(process_name),
            },
            Anomaly::UnexpectedMulticast { protocol, dst_ip } => Anomaly::UnexpectedMulticast {
                protocol: protocol.clone(),
                dst_ip: dst_ip.clone(),
            },
        }
    }
}

/// The views of a sequence of anomalies.
pub open spec fn anomaly_views(v: Seq<Anomaly>) -> Seq<AnomalyView> {
    v.map_values(|a: Anomaly| a@)
}

/// The view of an optional anomaly.
pub open spec fn opt_anomaly(o: Option<Anomaly>) -> Option<AnomalyView> {
    match o {
        Some(a) => Some(a@),
        None => None,
    }
}

/// The findings that an optional finding stands for: one or none.
pub open spec fn one_or_none(o: Option<AnomalyView>) -> Seq<AnomalyView> {
    match o {
        Some(a) => seq![a],
        None => Seq::empty(),
    }
}

/// How many listeners the detector remembers.
pub const LISTENER_CAPACITY: usize = 4096;

/// How many DNS names the detector follows.
pub const DNS_CAPACITY: usize = 4096;

/// How many pairs of hosts the detector follows.
pub const CONNECTION_CAPACITY: usize = 4096;

/// The length of the interval in which a port scan is looked for, in
/// nanoseconds: sixty seconds.
pub open spec fn scan_window_nanos() -> int {
    60_000_000_000
}

/// What is known of the queries for one DNS name.
#[derive(Debug, Clone, Copy, PartialEq, Eq, Structural)]
pub struct DnsPattern {
    pub query_count: u32,
    pub failed_count: u32,
    pub last_seen: Timestamp,
}

impl View for DnsPattern {
    type V = DnsPattern;

    open spec fn view(&self) -> DnsPattern {
        *self
    }
}

/// What is known of the flows from one host to another.
pub struct ConnectionPattern {
    pub count: u32,
    pub unique_ports: HashSet<u16>,
    pub first_seen: Timestamp,
    pub last_seen: Timestamp,
}

/// A [`ConnectionPattern`] with its ports as a set.
pub struct ConnectionView {
    pub count: u32,
    pub ports: Set<u16>,
    pub first_seen: Timestamp,
    pub last_seen: Timestamp,
}

impl View for ConnectionPattern {
    type V = ConnectionView;

    open spec fn view(&self) -> ConnectionView {
        ConnectionView {
            count: self.count,
            ports: self.unique_ports@,
            first_seen: self.first_seen,
            last_seen: self.last_seen,
        }
    }
}

/// A counter one higher, as far as 32 bits reach.
pub open spec fn bump(n: u32) -> u32 {
    if n < u32::MAX {
        (n + 1) as u32
    } else {
        n
    }
}

/// The list with `key` as its newest entry; a full list first drops its
/// oldest entry.
pub open spec fn remembered(known: Seq<(i32, u16)>, key: (i32, u16), capacity: nat) -> Seq<
    (i32, u16),
> {
    if known.len() >= capacity {
        known.drop_first().push(key)
    } else {
        known.push(key)
    }
}

/// Whether a path lies under one of the system directories.
pub open spec fn system_path(path: Seq<char>) -> bool {
    "C:\\Windows\\"@.is_prefix_of(path) || "C:\\Program Files\\"@.is_prefix_of(path)
}

/// Whether a new listener of a process on a port is suspicious: a privileged
/// port held by an executable outside the system directories, or a port below
/// the ephemeral range held by an unsigned executable.
pub open spec fn suspicious_listener(p: ProcessIdentityView, port: u16) -> bool {
    (port < 1024 && p.exe_path is Some && !system_path(p.exe_path->0)) || (p.signed == Some(false)
        && port < 49152)
}

/// The listener table after a flow, and the finding about the flow. A flow
/// that is a listener of a known process is looked up by process and port. A
/// pair met before changes nothing; a new pair is remembered, and reported
/// where it is suspicious.
pub open spec fn observe_listener(known: Seq<(i32, u16)>, flow: FlowEvent) -> (
    Seq<(i32, u16)>,
    Option<AnomalyView>,
) {
    match flow.process {
        Some(p) => if is_listener(flow) && !known.contains((p.pid, flow.src_port)) {
            (
                remembered(known, (p.pid, flow.src_port), LISTENER_CAPACITY as nat),
                if suspicious_listener(p@, flow.src_port) {
                    Some(
                        AnomalyView::HiddenListener {
                            pid: p.pid,
                            port: flow.src_port,
                            process_name: opt_text(p.name),
                        },
                    )
                } else {
                    None
                },
            )
        } else {
            (known, None)
        },
        None => (known, None),
    }
}

/// The finding about a flow inside the local network: one of the protocols
/// by which an intruder moves from host to host.
pub open spec fn lateral_finding(flow: FlowEvent) -> Option<AnomalyView> {
    if flow.direction == FlowDirection::Lateral {
        match protocol_of(flow.proto@, flow.src_port, flow.dst_port, flow.dst_ip@) {
            Some(p) => if p == LocalProtocol::SMB || p == LocalProtocol::RDP || p
                == LocalProtocol::LDAP {
                Some(
                    AnomalyView::LateralMovement {
                        src_ip: flow.src_ip@,
                        dst_ip: flow.dst_ip@,
                        protocol: protocol_name(p),
                    },
                )
            } else {
                None
            },
            None => None,
        }
    } else {
        None
    }
}

/// The key of a pair of hosts.
pub open spec fn connection_key(flow: FlowEvent) -> Seq<char> {
    flow.src_ip@ + ":"@ + flow.dst_ip@
}

/// A pair of hosts that has not been seen before `now`.
pub open spec fn fresh_connection(now: Timestamp) -> ConnectionView {
    ConnectionView { count: 0, ports: Set::empty(), first_seen: now, last_seen: now }
}

/// A pair of hosts after one more flow to `port` at time `now`.
pub open spec fn seen_connection(c: ConnectionView, port: u16, now: Timestamp) -> ConnectionView {
    ConnectionView {
        count: bump(c.count),
        ports: c.ports.insert(port),
        first_seen: c.first_seen,
        last_seen: now,
    }
}

/// Whether a pair of hosts looks like a port scan: more than ten destination
/// ports, the last of them less than sixty seconds after the first flow.
pub open spec fn looks_like_scan(c: ConnectionView) -> bool {
    c.ports.len() > 10 && c.last_seen.as_nanos() - c.first_seen.as_nanos() < scan_window_nanos()
}

/// The connection table after a flow, and the finding about the flow.
pub open spec fn observe_connection(
    table: Seq<(Seq<char>, ConnectionView)>,
    flow: FlowEvent,
    now: Timestamp,
) -> (Seq<(Seq<char>, ConnectionView)>, Option<AnomalyView>) {
    let key = connection_key(flow);
    let before = match lookup(table, key) {
        Some(c) => c,
        None => fresh_connection(now),
    };
    let c = seen_connection(before, flow.dst_port, now);
    (
        stored(table, key, c, CONNECTION_CAPACITY as nat),
        if looks_like_scan(c) {
            Some(
                AnomalyView::PortScanning {
                    src_ip: flow.src_ip@,
                    target_ip: flow.dst_ip@,
                    port_count: c.ports.len() as usize,
                },
            )
        } else {
            None
        },
    )
}

/// How many characters of `s` are lower-case vowels.
pub open spec fn vowel_count(s: Seq<char>) -> nat
    decreases s.len(),
{
    if s.len() == 0 {
        0
    } else {
        vowel_count(s.drop_last()) + if is_vowel(s.last()) {
            1nat
        } else {
            0nat
        }
    }
}

/// How many characters of `s` are decimal digits.
pub open spec fn digit_count(s: Seq<char>) -> nat
    decreases s.len(),
{
    if s.len() == 0 {
        0
    } else {
        digit_count(s.drop_last()) + if is_digit(s.last()) {
            1nat
        } else {
            0nat
        }
    }
}

/// The lower-case vowels.
pub open spec fn is_vowel(c: char) -> bool {
    c == 'a' || c == 'e' || c == 'i' || c == 'o' || c == 'u'
}

/// Whether a domain name looks machine-made: its leftmost label has more than
/// fifteen characters, and vowels make up less than a fifth of them or digits
/// more than a third.
pub open spec fn dga_like(domain: Seq<char>) -> bool {
    let label = split(domain, '.')[0];
    label.len() > 15 && (5 * vowel_count(label) < label.len() || 3 * digit_count(label)
        > label.len())
}

/// A DNS name that has not been asked for before `now`.
pub open spec fn fresh_dns(now: Timestamp) -> DnsPattern {
    DnsPattern { query_count: 0, failed_count: 0, last_seen: now }
}

/// A DNS name after one more query at time `now`, which failed or not.
pub open spec fn seen_dns(d: DnsPattern, failed: bool, now: Timestamp) -> DnsPattern {
    DnsPattern {
        query_count: bump(d.query_count),
        failed_count: if failed {
            bump(d.failed_count)
        } else {
            d.failed_count
        },
        last_seen: now,
    }
}

/// Whether the answer code of a flow reports a failure: any code but
/// `NOERROR`.
pub open spec fn query_failed(flow: FlowEvent) -> bool {
    match flow.dns_rcode {
        Some(code) => code@ != "NOERROR"@,
        None => false,
    }
}

/// Whether the queries for a name fail too often: more than ten queries, more
/// than four in five of them failed.
pub open spec fn fails_too_often(d: DnsPattern) -> bool {
    d.query_count > 10 && 5 * d.failed_count > 4 * d.query_count
}

/// The DNS table after a flow, and the finding about the flow. Only a flow
/// over a DNS port that carries a query name counts.
pub open spec fn observe_dns(table: Seq<(Seq<char>, DnsPattern)>, flow: FlowEvent, now: Timestamp) -> (
    Seq<(Seq<char>, DnsPattern)>,
    Option<AnomalyView>,
) {
    match flow.dns_qname {
        Some(qname) => if dns_ports(flow.src_port, flow.dst_port) {
            let before = match lookup(table, qname@) {
                Some(d) => d,
                None => fresh_dns(now),
            };
            let d = seen_dns(before, query_failed(flow), now);
            (
                stored(table, qname@, d, DNS_CAPACITY as nat),
                if fails_too_often(d) {
                    Some(
                        AnomalyView::SuspiciousDns {
                            domain: qname@,
                            reason: "High failure rate (potential DGA/C2)"@,
                        },
                    )
                } else if dga_like(qname@) {
                    Some(
                        AnomalyView::SuspiciousDns {
                            domain: qname@,
                            reason: "Potential DGA-generated domain"@,
                        },
                    )
                } else {
                    None
                },
            )
        } else {
            (table, None)
        },
        None => (table, None),
    }
}

/// Whether a port is one on which proxies commonly listen.
pub open spec fn proxy_port(port: u16) -> bool {
    port == 8080 || port == 8888 || port == 3128 || port == 1080 || port == 9050 || port == 9150
}

/// Whether a process name is that of an application known to run a proxy: the
/// name, taken without case, holds one of the seven known names.
pub open spec fn known_proxy(name: Option<Seq<char>>) -> bool {
    match name {
        Some(n) => {
            let l = lowered(n);
            ||| contains_text(l, "chrome"@)
            ||| contains_text(l, "firefox"@)
            ||| contains_text(l, "edge"@)
            ||| contains_text(l, "proxy"@)
            ||| contains_text(l, "squid"@)
            ||| contains_text(l, "nginx"@)
            ||| contains_text(l, "privoxy"@)
        },
        None => false,
    }
}

/// The finding about a listener on a proxy port whose process is not known to
/// run a proxy.
pub open spec fn proxy_finding(flow: FlowEvent) -> Option<AnomalyView> {
    match flow.process {
        Some(p) => if is_listener(flow) && proxy_port(flow.src_port) && !known_proxy(
            opt_text(p.name),
        ) {
            Some(
                AnomalyView::LocalProxy {
                    pid: p.pid,
                    port: flow.src_port,
                    process_name: opt_text(p.name),
                },
            )
        } else {
            None
        },
        None => None,
    }
}

/// What the detector remembers.
pub struct DetectorView {
    pub listeners: Seq<(i32, u16)>,
    pub dns: Seq<(Seq<char>, DnsPattern)>,
    pub connections: Seq<(Seq<char>, ConnectionView)>,
}

/// What the detector remembers after a flow.
pub open spec fn next_state(s: DetectorView, flow: FlowEvent, now: Timestamp) -> DetectorView {
    DetectorView {
        listeners: observe_listener(s.listeners, flow).0,
        dns: observe_dns(s.dns, flow, now).0,
        connections: observe_connection(s.connections, flow, now).0,
    }
}

/// The findings about a flow, in the order of the checks: hidden listener,
/// lateral movement, port scan, DNS, local proxy.
pub open spec fn findings(s: DetectorView, flow: FlowEvent, now: Timestamp) -> Seq<AnomalyView> {
    one_or_none(observe_listener(s.listeners, flow).1) + one_or_none(lateral_finding(flow))
        + one_or_none(observe_connection(s.connections, flow, now).1) + one_or_none(
        observe_dns(s.dns, flow, now).1,
    ) + one_or_none(proxy_finding(flow))
}

/// A table that has given up the entry of a key no longer holds the key.
pub proof fn lemma_without_forgets<W>(t: Seq<(Seq<char>, W)>, key: Seq<char>)
    requires
        distinct_keys(t),
    ensures
        lookup(without(t, key), key) is None,
        without(without(t, key), key) == without(t, key),
        distinct_keys(without(t, key)),
        without(t, key).len() <= t.len(),
{
    lemma_find_key(t, key, 0);
    let rest = without(t, key);
    match find_key(t, key, 0) {
        Some(i) => {
            assert forall|j: int| 0 <= j < rest.len() implies (#[trigger] rest[j]).0 != key by {
                if j < i {
                    assert(rest[j] == t[j]);
                } else {
                    assert(rest[j] == t[j + 1]);
                }
            }
            assert forall|a: int, b: int| 0 <= a < b < rest.len() implies (#[trigger] rest[a]).0 != (
            #[trigger] rest[b]).0 by {
                let a0 = if a < i {
                    a
                } else {
                    a + 1
                };
                let b0 = if b < i {
                    b
                } else {
                    b + 1
                };
                assert(rest[a] == t[a0]);
                assert(rest[b] == t[b0]);
            }
        },
        None => {},
    }
    lemma_find_key(rest, key, 0);
}

/// The stateful detector.
pub struct AnomalyDetector {
    listeners: Vec<(i32, u16)>,
    dns: RecencyTable<DnsPattern>,
    connections: RecencyTable<ConnectionPattern>,
}

impl View for AnomalyDetector {
    type V = DetectorView;

    closed spec fn view(&self) -> DetectorView {
        DetectorView {
            listeners: self.listeners@,
            dns: self.dns.entries(),
            connections: self.connections.entries(),
        }
    }
}

impl AnomalyDetector {
    /// Every table is within its capacity and holds no key twice.
    pub closed spec fn wf(&self) -> bool {
        &&& self.listeners@.len() <= LISTENER_CAPACITY
        &&& self.dns.wf()
        &&& self.dns.capacity() == DNS_CAPACITY
        &&& self.connections.wf()
        &&& self.connections.capacity() == CONNECTION_CAPACITY
    }

    /// A detector that has seen nothing.
    pub fn new() -> (r: Self)
        ensures
            r.wf(),
            r@.listeners == Seq::<(i32, u16)>::empty(),
            r@.dns == Seq::<(Seq<char>, DnsPattern)>::empty(),
            r@.connections == Seq::<(Seq<char>, ConnectionView)>::empty(),
    {
        AnomalyDetector {
            listeners: Vec::new(),
            dns: RecencyTable::new(DNS_CAPACITY),
            connections: RecencyTable::new(CONNECTION_CAPACITY),
        }
    }

    /// A well-formed detector stays within its capacities.
    pub proof fn lemma_bounded(&self)
        requires
            self.wf(),
        ensures
            self@.listeners.len() <= LISTENER_CAPACITY,
            self@.dns.len() <= DNS_CAPACITY,
            self@.connections.len() <= CONNECTION_CAPACITY,
    {
    }

    /// The number of listeners remembered.
    pub fn known_listeners(&self) -> (n: usize)
        ensures
            n == self@.listeners.len(),
    {
        self.listeners.len()
    }

    /// The number of DNS names followed.
    pub fn tracked_names(&self) -> (n: usize)
        ensures
            n == self@.dns.len(),
    {
        self.dns.len()
    }

    /// The number of pairs of hosts followed.
    pub fn tracked_connections(&self) -> (n: usize)
        ensures
            n == self@.connections.len(),
    {
        self.connections.len()
    }

    /// Looks at a flow at the wall clock's time: updates what the detector
    /// remembers and returns the findings about the flow.
    pub fn analyze_flow(&mut self, flow: &FlowEvent) -> (r: Vec<Anomaly>)
        requires
            old(self).wf(),
        ensures
            final(self).wf(),
            exists|now: Timestamp|
                now.wf() && final(self)@ == next_state(old(self)@, *flow, now) && anomaly_views(r@)
                    == findings(
                    old(self)@,
                    *flow,
                    now,
                ),
    {
        let now = wall_clock();
        let r = self.analyze_flow_at(flow, now);
        assert(now.wf() && final(self)@ == next_state(old(self)@, *flow, now) && anomaly_views(r@)
            == findings(
            old(self)@,
            *flow,
            now,
        ));
        r
    }

    /// Looks at a flow at time `now`: updates what the detector remembers and
    /// returns the findings about the flow.
    pub fn analyze_flow_at(&mut self, flow: &FlowEvent, now: Timestamp) -> (r: Vec<Anomaly>)
        requires
            old(self).wf(),
        ensures
            final(self).wf(),
            final(self)@ == next_state(old(self)@, *flow, now),
            anomaly_views(r@) == findings(old(self)@, *flow, now),
    {
        let mut anomalies: Vec<Anomaly> = Vec::new();
        let a = self.check_hidden_listener(flow);
        let b = Self::check_lateral_movement(flow);
        let c = self.check_port_scanning(flow, now);
        let d = self.check_dns_anomaly(flow, now);
        let e = Self::check_local_proxy(flow);
        assert(anomaly_views(anomalies@) =~= Seq::<AnomalyView>::empty());
        push_finding(&mut anomalies, a);
        push_finding(&mut anomalies, b);
        push_finding(&mut anomalies, c);
        push_finding(&mut anomalies, d);
        push_finding(&mut anomalies, e);
        assert(anomaly_views(anomalies@) =~= findings(old(self)@, *flow, now));
        anomalies
    }

    /// The listener check.
    fn check_hidden_listener(&mut self, flow: &FlowEvent) -> (r: Option<Anomaly>)
        requires
            old(self).wf(),
        ensures
            final(self).wf(),
            final(self)@.dns == old(self)@.dns,
            final(self)@.connections == old(self)@.connections,
            (final(self)@.listeners, opt_anomaly(r)) == observe_listener(old(self)@.listeners, *flow),
    {
        if !listens(flow) {
            return None;
        }
        match &flow.process {
            None => None,
            Some(process) => {
                let pid = process.pid;
                let port = flow.src_port;
                if self.knows_listener(pid, port) {
                    return None;
                }
                if self.listeners.len() >= LISTENER_CAPACITY {
                    let _ = self.listeners.remove(0);
                    assert(self.listeners@ == old(self).listeners@.drop_first());
                }
                self.listeners.push((pid, port));
                if Self::is_suspicious_listener(process, port) {
                    Some(
                        Anomaly::HiddenListener {
                            pid,
                            port,
                            process_name: copy_opt_text(&process.name),
                        },
                    )
                } else {
                    None
                }
            },
        }
    }

    /// Whether the pair of a process and a port has been met before.
    fn knows_listener(&self, pid: i32, port: u16) -> (r: bool)
        ensures
            r == self@.listeners.contains((pid, port)),
    {
        let mut i: usize = 0;
        while i < self.listeners.len()
            invariant
                i <= self.listeners.len(),
                forall|k: int| 0 <= k < i ==> self.listeners@[k] != (pid, port),
            decreases self.listeners.len() - i,
        {
            let entry = self.listeners[i];
            if entry.0 == pid && entry.1 == port {
                return true;
            }
            i = i + 1;
        }
        false
    }

    /// The lateral movement check.
    fn check_lateral_movement(flow: &FlowEvent) -> (r: Option<Anomaly>)
        ensures
            opt_anomaly(r) == lateral_finding(*flow),
    {
        if flow.direction != FlowDirection::Lateral {
            return None;
        }
        match ProtocolDetector::detect_protocol(flow) {
            Some(proto) => {
                if proto == LocalProtocol::SMB || proto == LocalProtocol::RDP || proto
                    == LocalProtocol::LDAP {
                    Some(
                        Anomaly::LateralMovement {
                            src_ip: flow.src_ip.clone(),
                            dst_ip: flow.dst_ip.clone(),
                            protocol: proto.as_str().to_owned(),
                        },
                    )
                } else {
                    None
                }
            },
            None => None,
        }
    }

    /// The port scan check.
    fn check_port_scanning(&mut self, flow: &FlowEvent, now: Timestamp) -> (r: Option<Anomaly>)
        requires
            old(self).wf(),
        ensures
            final(self).wf(),
            final(self)@.dns == old(self)@.dns,
            final(self)@.listeners == old(self)@.listeners,
            (final(self)@.connections, opt_anomaly(r)) == observe_connection(
                old(self)@.connections,
                *flow,
                now,
            ),
    {
        let mut key = String::new();
        push_text(&mut key, flow.src_ip.as_str());
        push_text(&mut key, ":");
        push_text(&mut key, flow.dst_ip.as_str());
        assert(key@ == connection_key(*flow));
        let ghost table = self.connections.entries();
        let found = self.connections.take(key.as_str());
        let mut pattern = match found {
            Some(p) => p,
            None => ConnectionPattern {
                count: 0,
                unique_ports: HashSet::new(),
                first_seen: now,
                last_seen: now,
            },
        };
        pattern.count = pattern.count.saturating_add(1);
        pattern.unique_ports.insert(flow.dst_port);
        pattern.last_seen = now;
        let ports = pattern.unique_ports.len();
        let recent = elapsed_below_scan_window(pattern.first_seen, now);
        proof {
            lemma_without_forgets(table, key@);
            lemma_stored(table, key@, pattern@, CONNECTION_CAPACITY as nat);
        }
        self.connections.put(key, pattern);
        if ports > 10 && recent {
            Some(
                Anomaly::PortScanning {
                    src_ip: flow.src_ip.clone(),
                    target_ip: flow.dst_ip.clone(),
                    port_count: ports,
                },
            )
        } else {
            None
        }
    }

    /// The DNS check.
    fn check_dns_anomaly(&mut self, flow: &FlowEvent, now: Timestamp) -> (r: Option<Anomaly>)
        requires
            old(self).wf(),
        ensures
            final(self).wf(),
            final(self)@.connections == old(self)@.connections,
            final(self)@.listeners == old(self)@.listeners,
            (final(self)@.dns, opt_anomaly(r)) == observe_dns(old(self)@.dns, *flow, now),
    {
        if !ProtocolDetector::is_dns_flow(flow) {
            return None;
        }
        match &flow.dns_qname {
            None => None,
            Some(qname) => {
                let ghost table = self.dns.entries();
                let found = self.dns.take(qname.as_str());
                let before = match found {
                    Some(d) => d,
                    None => DnsPattern { query_count: 0, failed_count: 0, last_seen: now },
                };
                let failed = match &flow.dns_rcode {
                    Some(code) => !str_eq(code.as_str(), "NOERROR"),
                    None => false,
                };
                let pattern = DnsPattern {
                    query_count: before.query_count.saturating_add(1),
                    failed_count: if failed {
                        before.failed_count.saturating_add(1)
                    } else {
                        before.failed_count
                    },
                    last_seen: now,
                };
                proof {
                    lemma_without_forgets(table, qname@);
                    lemma_stored(table, qname@, pattern, DNS_CAPACITY as nat);
                }
                self.dns.put(qname.clone(), pattern);
                if pattern.query_count > 10 && 5 * (pattern.failed_count as u64) > 4 * (
                pattern.query_count as u64) {
                    Some(
                        Anomaly::SuspiciousDns {
                            domain: qname.clone(),
                            reason: "High failure rate (potential DGA/C2)".to_owned(),
                        },
                    )
                } else if Self::is_dga_domain(qname.as_str()) {
                    Some(
                        Anomaly::SuspiciousDns {
                            domain: qname.clone(),
                            reason: "Potential DGA-generated domain".to_owned(),
                        },
                    )
                } else {
                    None
                }
            },
        }
    }

    /// The local proxy check.
    fn check_local_proxy(flow: &FlowEvent) -> (r: Option<Anomaly>)
        ensures
            opt_anomaly(r) == proxy_finding(*flow),
    {
        if !listens(flow) {
            return None;
        }
        let port = flow.src_port;
        if !(port == 8080 || port == 8888 || port == 3128 || port == 1080 || port == 9050 || port
            == 9150) {
            return None;
        }
        match &flow.process {
            Some(process) => {
                if !Self::is_known_proxy_app(&process.name) {
                    Some(
                        Anomaly::LocalProxy {
                            pid: process.pid,
                            port,
                            process_name: copy_opt_text(&process.name),
                        },
                    )
                } else {
                    None
                }
            },
            None => None,
        }
    }

    /// Whether a new listener of `process` on `port` is suspicious.
    pub fn is_suspicious_listener(process: &ProcessIdentity, port: u16) -> (r: bool)
        ensures
            r == suspicious_listener(process@, port),
    {
        if port < 1024 {
            match &process.exe_path {
                Some(path) => {
                    let p = chars_of(path.as_str());
                    let windows = chars_of("C:\\Windows\\");
                    let program_files = chars_of("C:\\Program Files\\");
                    if !has_prefix(&p, &windows) && !has_prefix(&p, &program_files) {
                        return true;
                    }
                },
                None => {},
            }
        }
        match process.signed {
            Some(signed) => !signed && port < 49152,
            None => false,
        }
    }

    /// Whether a domain name looks machine-made.
    pub fn is_dga_domain(domain: &str) -> (r: bool)
        ensures
            r == dga_like(domain@),
    {
        let v = chars_of(domain);
        let parts = split_on(&v, '.');
        assert(texts(parts@)[0] == parts@[0]@);
        let label = &parts[0];
        if label.len() <= 15 {
            return false;
        }
        let mut vowels: usize = 0;
        let mut digits: usize = 0;
        let mut i: usize = 0;
        while i < label.len()
            invariant
                i <= label.len(),
                vowels == vowel_count(label@.take(i as int)),
                digits == digit_count(label@.take(i as int)),
                vowels <= i,
                digits <= i,
            decreases label.len() - i,
        {
            let c = label[i];
            assert(label@.take(i + 1).drop_last() == label@.take(i as int));
            assert(label@.take(i + 1).last() == c);
            if c == 'a' || c == 'e' || c == 'i' || c == 'o' || c == 'u' {
                vowels = vowels + 1;
            }
            if c >= '0' && c <= '9' {
                digits = digits + 1;
            }
            i = i + 1;
        }
        assert(label@.take(label.len() as int) == label@);
        let n = label.len() as u128;
        5 * (vowels as u128) < n || 3 * (digits as u128) > n
    }

    /// Whether a process name is that of an application known to run a proxy.
    pub fn is_known_proxy_app(name: &Option<String>) -> (r: bool)
        ensures
            r == known_proxy(opt_text(*name)),
    {
        match name {
            Some(name) => {
                let l = lowercase(&chars_of(name.as_str()));
                contains(&l, &chars_of("chrome")) || contains(&l, &chars_of("firefox")) || contains(
                    &l,
                    &chars_of("edge"),
                ) || contains(&l, &chars_of("proxy")) || contains(&l, &chars_of("squid"))
                    || contains(&l, &chars_of("nginx")) || contains(&l, &chars_of("privoxy"))
            },
            None => false,
        }
    }
}

impl Default for AnomalyDetector {
    fn default() -> (r: Self)
        ensures
            r.wf(),
            r@.listeners == Seq::<(i32, u16)>::empty(),
            r@.dns == Seq::<(Seq<char>, DnsPattern)>::empty(),
            r@.connections == Seq::<(Seq<char>, ConnectionView)>::empty(),
    {
        Self::new()
    }
}

/// Appends a finding, if there is one.
fn push_finding(out: &mut Vec<Anomaly>, finding: Option<Anomaly>)
    ensures
        anomaly_views(final(out)@) == anomaly_views(old(out)@) + one_or_none(opt_anomaly(finding)),
{
    match finding {
        Some(a) => {
            out.push(a);
            assert(anomaly_views(out@) =~= anomaly_views(old(out)@) + seq![a@]);
        },
        None => {
            assert(anomaly_views(out@) =~= anomaly_views(old(out)@) + Seq::<AnomalyView>::empty());
        },
    }
}

/// Whether less than the scan window lies between `first` and `now`.
fn elapsed_below_scan_window(first: Timestamp, now: Timestamp) -> (r: bool)
    ensures
        r == (now.as_nanos() - first.as_nanos() < scan_window_nanos()),
{
    let secs: i128 = (now.secs as i128) - (first.secs as i128);
    let nanos: i128 = (now.nanos as i128) - (first.nanos as i128);
    assert(secs * 1_000_000_000 + nanos == now.as_nanos() - first.as_nanos()) by (nonlinear_arith)
        requires
            secs == now.secs - first.secs,
            nanos == now.nanos - first.nanos,
            now.as_nanos() == now.secs * 1_000_000_000 + now.nanos,
            first.as_nanos() == first.secs * 1_000_000_000 + first.nanos,
    ;
    assert(-0x1_0000_0000_0000_0000 * 1_000_000_000 <= secs * 1_000_000_000
        <= 0x1_0000_0000_0000_0000 * 1_000_000_000) by (nonlinear_arith)
        requires
            -0x1_0000_0000_0000_0000 <= secs <= 0x1_0000_0000_0000_0000,
    ;
    secs * 1_000_000_000 + nanos < 60_000_000_000
}

} // verus!
