//! The collector's decisions: when a worker is started and stopped, what a
//! worker does when it wakes, and what it hands to the subscribers. The
//! caller runs the worker, waits for the timer and takes the snapshots.

use vstd::prelude::*;
use crate::anomaly::{anomaly_views, Anomaly, AnomalyView};
use crate::flow::{
    blank_flow, FlowDirection, FlowEvent, FlowEventView, FlowRisk, FlowRiskView,
};
use crate::text::push_text;
use crate::time::{wall_clock, Timestamp};

verus! {

/// Seconds between two snapshots of the host's tables.
pub const SNAPSHOT_INTERVAL_SECS: u64 = 2;

/// Seconds between two flows of the mock collector.
pub const MOCK_INTERVAL_SECS: u64 = 1;

/// How many events the event bus holds for a slow subscriber.
pub const EVENT_BUS_CAPACITY: usize = 256;

/// Whether a collector has a worker.
#[derive(Debug, Clone, Copy, PartialEq, Eq, Structural)]
pub struct Lifecycle {
    pub running: bool,
}

/// What the caller does on `start`.
#[derive(Debug, Clone, Copy, PartialEq, Eq, Structural)]
pub enum StartAction {
    /// Spawn the worker.
    SpawnWorker,
    /// The worker is there already.
    Nothing,
}

/// What the caller does on `stop`.
#[derive(Debug, Clone, Copy, PartialEq, Eq, Structural)]
pub enum StopAction {
    /// Signal shutdown and wait for the worker to end.
    SignalAndJoin,
    /// Signal shutdown; there is no worker to wait for.
    SignalOnly,
}

impl Lifecycle {
    /// A collector that has not been started.
    pub fn new() -> (r: Self)
        ensures
            !r.running,
    {
        Lifecycle { running: false }
    }

    /// Starts the collector. Starting a running collector changes nothing: a
    /// collector has at most one worker.
    pub fn start(&mut self) -> (action: StartAction)
        ensures
            final(self).running,
            action == (if old(self).running {
                StartAction::Nothing
            } else {
                StartAction::SpawnWorker
            }),
    {
        if self.running {
            StartAction::Nothing
        } else {
            self.running = true;
            StartAction::SpawnWorker
        }
    }

    /// Stops the collector. The shutdown signal is sent in any case; the
    /// worker, if there is one, is waited for.
    pub fn stop(&mut self) -> (action: StopAction)
        ensures
            !final(self).running,
            action == (if old(self).running {
                StopAction::SignalAndJoin
            } else {
                StopAction::SignalOnly
            }),
    {
        if self.running {
            self.running = false;
            StopAction::SignalAndJoin
        } else {
            StopAction::SignalOnly
        }
    }
}

/// Why a worker woke up.
#[derive(Debug, Clone, Copy, PartialEq, Eq, Structural)]
pub enum Wakeup {
    /// The shutdown channel changed, or closed; `delivered` tells the two
    /// apart and `requested` is the flag it now holds.
    Shutdown { delivered: bool, requested: bool },
    /// The timer ran out.
    Timer,
}

/// What a worker does next.
#[derive(Debug, Clone, Copy, PartialEq, Eq, Structural)]
pub enum WorkerStep {
    /// Leave the loop.
    Exit,
    /// Go back to waiting.
    Wait,
    /// Take a snapshot and hand its flows to the subscribers.
    TakeSnapshot,
}

/// The step of a worker after a wakeup: it leaves on a delivered request for
/// shutdown, takes a snapshot when the timer ran out, and waits on otherwise.
pub fn worker_step(wakeup: Wakeup) -> (step: WorkerStep)
    ensures
        step == (match wakeup {
            Wakeup::Shutdown { delivered, requested } => if delivered && requested {
                WorkerStep::Exit
            } else {
                WorkerStep::Wait
            },
            Wakeup::Timer => WorkerStep::TakeSnapshot,
        }),
{
    match wakeup {
        Wakeup::Shutdown { delivered, requested } => if delivered && requested {
            WorkerStep::Exit
        } else {
            WorkerStep::Wait
        },
        Wakeup::Timer => WorkerStep::TakeSnapshot,
    }
}

/// How a snapshot ended.
#[derive(Debug)]
pub enum SnapshotOutcome {
    /// The flows that were collected.
    Collected(Vec<FlowEvent>),
    /// The snapshot failed; the text says why.
    Failed(String),
    /// The snapshot task did not return.
    Panicked(String),
}

/// The flows that go to the subscribers after a snapshot, in the order in
/// which they were collected. A snapshot that failed gives none, and the
/// worker goes on.
pub fn events_to_emit(outcome: SnapshotOutcome) -> (r: Vec<FlowEvent>)
    ensures
        r@ == (match outcome {
            SnapshotOutcome::Collected(events) => events@,
            _ => Seq::<FlowEvent>::empty(),
        }),
{
    match outcome {
        SnapshotOutcome::Collected(events) => events,
        _ => Vec::new(),
    }
}

/// The port from which the mock collector's flow number `counter` comes.
pub open spec fn mock_port(counter: u64) -> u16 {
    (10_000 + counter % 1_000) as u16
}

/// The flow number `counter` of the mock collector, seen at `now`: a loopback
/// flow whose transport alternates and whose counters grow with the number.
pub open spec fn mock_flow(counter: u64, now: Timestamp) -> FlowEventView {
    FlowEventView {
        ts_first: now,
        ts_last: now,
        proto: if counter % 2 == 0 {
            "TCP"@
        } else {
            "UDP"@
        },
        src_ip: "127.0.0.1"@,
        src_port: mock_port(counter),
        dst_ip: "127.0.0.1"@,
        dst_port: (mock_port(counter) + 1) as u16,
        direction: FlowDirection::Lateral,
        bytes: (counter * 512) as u64,
        packets: (counter * 4) as u64,
        ..blank_flow()
    }
}

/// The largest flow number whose byte counter fits in 64 bits.
pub const MOCK_COUNTER_MAX: u64 = 0x7F_FFFF_FFFF_FFFF;

/// Executable [`mock_flow`].
pub fn mock_event(counter: u64, now: Timestamp) -> (r: FlowEvent)
    requires
        counter <= MOCK_COUNTER_MAX,
    ensures
        r@ == mock_flow(counter, now),
{
    let port: u16 = (10_000 + counter % 1_000) as u16;
    FlowEvent {
        ts_first: now,
        ts_last: now,
        proto: if counter % 2 == 0 {
            "TCP".to_owned()
        } else {
            "UDP".to_owned()
        },
        src_ip: "127.0.0.1".to_owned(),
        src_port: port,
        dst_ip: "127.0.0.1".to_owned(),
        dst_port: port + 1,
        iface: None,
        direction: FlowDirection::Lateral,
        state: None,
        bytes: counter * 512,
        packets: counter * 4,
        process: None,
        layer2: None,
        risk: None,
        sni: None,
        alpn: None,
        ja3: None,
        dns_qname: None,
        dns_qtype: None,
        dns_rcode: None,
    }
}

/// A listener on port 8080 of every interface, seen at `now`.
pub open spec fn sample_listener(now: Timestamp) -> FlowEventView {
    FlowEventView {
        ts_first: now,
        ts_last: now,
        proto: "TCP"@,
        src_ip: "0.0.0.0"@,
        src_port: 8080,
        dst_ip: "0.0.0.0"@,
        dst_port: 0,
        iface: Some("Ethernet0"@),
        direction: FlowDirection::Inbound,
        state: Some("LISTEN"@),
        ..blank_flow()
    }
}

/// A sample listener flow, stamped with the wall clock's time.
pub fn sample_listener_event() -> (r: FlowEvent)
    ensures
        exists|now: Timestamp| now.wf() && r@ == sample_listener(now),
{
    let now = wall_clock();
    let r = sample_listener_event_at(now);
    assert(now.wf() && r@ == sample_listener(now));
    r
}

/// A sample listener flow, stamped with `now`.
pub fn sample_listener_event_at(now: Timestamp) -> (r: FlowEvent)
    ensures
        r@ == sample_listener(now),
{
    FlowEvent {
        ts_first: now,
        ts_last: now,
        proto: "TCP".to_owned(),
        src_ip: "0.0.0.0".to_owned(),
        src_port: 8080,
        dst_ip: "0.0.0.0".to_owned(),
        dst_port: 0,
        iface: Some("Ethernet0".to_owned()),
        direction: FlowDirection::Inbound,
        state: Some("LISTEN".to_owned()),
        bytes: 0,
        packets: 0,
        process: None,
        layer2: None,
        risk: None,
        sni: None,
        alpn: None,
        ja3: None,
        dns_qname: None,
        dns_qtype: None,
        dns_rcode: None,
    }
}

/// The name of the kind of a finding.
pub open spec fn anomaly_label(a: AnomalyView) -> Seq<char> {
    match a {
        AnomalyView::HiddenListener { .. } => "HiddenListener"@,
        AnomalyView::UnexpectedP2P { .. } => "UnexpectedP2P"@,
        AnomalyView::ArpSpoofing { .. } => "ArpSpoofing"@,
        AnomalyView::PortScanning { .. } => "PortScanning"@,
        AnomalyView::LateralMovement { .. } => "LateralMovement"@,
        AnomalyView::SuspiciousDns { .. } => "SuspiciousDns"@,
        AnomalyView::LocalProxy { .. } => "LocalProxy"@,
        AnomalyView::UnexpectedMulticast { .. } => "UnexpectedMulticast"@,
    }
}

/// The names of the kinds of a list of findings, with `, ` between them.
pub open spec fn anomaly_labels(s: Seq<AnomalyView>) -> Seq<char>
    decreases s.len(),
{
    if s.len() == 0 {
        Seq::empty()
    } else if s.len() == 1 {
        anomaly_label(s[0])
    } else {
        anomaly_labels(s.drop_last()) + ", "@ + anomaly_label(s.last())
    }
}

/// The risk verdict of a flow with findings.
pub open spec fn anomaly_risk(s: Seq<AnomalyView>) -> FlowRiskView {
    FlowRiskView {
        score: 75,
        level: "Medium"@,
        rule_id: Some("anomaly"@),
        rationale: Some(anomaly_labels(s)),
    }
}

/// Executable [`anomaly_label`].
pub fn label_of(a: &Anomaly) -> (r: &'static str)
    ensures
        r@ == anomaly_label(a@),
{
    match a {
        Anomaly::HiddenListener { .. } => "HiddenListener",
        Anomaly::UnexpectedP2P { .. } => "UnexpectedP2P",
        Anomaly::ArpSpoofing { .. } => "ArpSpoofing",
        Anomaly::PortScanning { .. } => "PortScanning",
        Anomaly::LateralMovement { .. } => "LateralMovement",
        Anomaly::SuspiciousDns { .. } => "SuspiciousDns",
        Anomaly::LocalProxy { .. } => "LocalProxy",
        Anomaly::UnexpectedMulticast { .. } => "UnexpectedMulticast",
    }
}

/// Marks a flow with the findings about it before it is handed on. A flow
/// without findings stays as it is; a flow with findings gets the risk verdict
/// of an anomaly, which names the findings.
pub fn annotate_risk(event: &mut FlowEvent, anomalies: &Vec<Anomaly>)
    ensures
        anomalies@.len() == 0 ==> *final(event) == *old(event),
        anomalies@.len() > 0 ==> final(event)@ == (FlowEventView {
            risk: Some(anomaly_risk(anomaly_views(anomalies@))),
            ..old(event)@
        }),
{
    if anomalies.len() == 0 {
        return ;
    }
    let ghost views = anomaly_views(anomalies@);
    let mut rationale = String::new();
    let mut i: usize = 0;
    while i < anomalies.len()
        invariant
            i <= anomalies.len(),
            views == anomaly_views(anomalies@),
            rationale@ == anomaly_labels(views.take(i as int)),
        decreases anomalies.len() - i,
    {
        assert(views.take(i + 1).drop_last() == views.take(i as int));
        assert(views.take(i + 1).last() == anomalies@[i as int]@);
        if i > 0 {
            push_text(&mut rationale, ", ");
        }
        push_text(&mut rationale, label_of(&anomalies[i]));
        assert(rationale@ == anomaly_labels(views.take(i + 1))) by {
            if i == 0 {
                assert(views.take(1)[0] == anomalies@[0]@);
                assert(Seq::<char>::empty() + anomaly_label(anomalies@[0]@) == anomaly_label(
                    anomalies@[0]@,
                ));
            }
        }
        i = i + 1;
    }
    assert(views.take(anomalies.len() as int) == views);
    event.risk = Some(
        FlowRisk {
            score: 75,
            level: "Medium".to_owned(),
            rule_id: Some("anomaly".to_owned()),
            rationale: Some(rationale),
        },
    );
}

} // verus!
