use nets_monitor::collector::{
    events_to_emit, mock_event, worker_step, Lifecycle, SnapshotOutcome, StartAction, StopAction,
    Wakeup, WorkerStep, EVENT_BUS_CAPACITY, MOCK_COUNTER_MAX, MOCK_INTERVAL_SECS,
    SNAPSHOT_INTERVAL_SECS,
};
use nets_monitor::{
    sample_listener_event, sample_listener_event_at, CollectorError, FlowDirection, FlowEvent,
    Timestamp,
};

#[test]
fn start_and_stop_are_idempotent() {
    let mut lifecycle = Lifecycle::new();
    assert!(!lifecycle.running);
    assert_eq!(lifecycle.stop(), StopAction::SignalOnly);
    assert_eq!(lifecycle.start(), StartAction::SpawnWorker);
    assert!(lifecycle.running);
    assert_eq!(lifecycle.start(), StartAction::Nothing);
    assert!(lifecycle.running);
    assert_eq!(lifecycle.stop(), StopAction::SignalAndJoin);
    assert!(!lifecycle.running);
    assert_eq!(lifecycle.stop(), StopAction::SignalOnly);
    assert_eq!(lifecycle.start(), StartAction::SpawnWorker);
}

#[test]
fn workers_leave_on_a_delivered_shutdown_only() {
    assert_eq!(worker_step(Wakeup::Shutdown { delivered: true, requested: true }), WorkerStep::Exit);
    assert_eq!(worker_step(Wakeup::Shutdown { delivered: true, requested: false }), WorkerStep::Wait);
    assert_eq!(worker_step(Wakeup::Shutdown { delivered: false, requested: true }), WorkerStep::Wait);
    assert_eq!(worker_step(Wakeup::Shutdown { delivered: false, requested: false }), WorkerStep::Wait);
    assert_eq!(worker_step(Wakeup::Timer), WorkerStep::TakeSnapshot);
}

#[test]
fn failed_snapshots_emit_nothing() {
    let events = vec![mock_event(1, Timestamp::new(1, 0)), mock_event(2, Timestamp::new(2, 0))];
    let emitted = events_to_emit(SnapshotOutcome::Collected(events));
    assert_eq!(emitted.len(), 2);
    assert_eq!(emitted[0].bytes, 512);
    assert_eq!(emitted[1].bytes, 1024);
    assert!(events_to_emit(SnapshotOutcome::Failed("netstat exited with status 1".into())).is_empty());
    assert!(events_to_emit(SnapshotOutcome::Panicked("task panicked".into())).is_empty());
}

#[test]
fn intervals_and_capacity() {
    assert_eq!(SNAPSHOT_INTERVAL_SECS, 2);
    assert_eq!(MOCK_INTERVAL_SECS, 1);
    assert_eq!(EVENT_BUS_CAPACITY, 256);
}

#[test]
fn mock_flows_alternate_and_grow() {
    let now = Timestamp::new(1_700_000_000, 1);
    let first = mock_event(1, now);
    assert_eq!(first.proto, "UDP");
    assert_eq!(first.src_ip, "127.0.0.1");
    assert_eq!(first.dst_ip, "127.0.0.1");
    assert_eq!(first.src_port, 10_001);
    assert_eq!(first.dst_port, 10_002);
    assert_eq!(first.direction, FlowDirection::Lateral);
    assert_eq!(first.bytes, 512);
    assert_eq!(first.packets, 4);
    assert_eq!(first.ts_first, now);
    assert_eq!(first.ts_last, now);
    assert!(first.state.is_none());
    let second = mock_event(2, now);
    assert_eq!(second.proto, "TCP");
    assert_eq!(second.src_port, 10_002);
    let wrapped = mock_event(1_999, now);
    assert_eq!(wrapped.src_port, 10_999);
    assert_eq!(wrapped.dst_port, 11_000);
    assert_eq!(mock_event(2_000, now).src_port, 10_000);
    let last = mock_event(MOCK_COUNTER_MAX, now);
    assert_eq!(last.bytes, MOCK_COUNTER_MAX * 512);
    assert_eq!(last.packets, MOCK_COUNTER_MAX * 4);
}

#[test]
fn the_sample_listener() {
    let now = Timestamp::new(5, 6);
    let event = sample_listener_event_at(now);
    assert_eq!(event.proto, "TCP");
    assert_eq!(event.src_ip, "0.0.0.0");
    assert_eq!(event.src_port, 8080);
    assert_eq!(event.dst_ip, "0.0.0.0");
    assert_eq!(event.dst_port, 0);
    assert_eq!(event.iface, Some("Ethernet0".to_string()));
    assert_eq!(event.direction, FlowDirection::Inbound);
    assert_eq!(event.state, Some("LISTEN".to_string()));
    assert!(event.risk.is_none());
    assert_eq!(event.ts_first, now);
    let stamped = sample_listener_event();
    assert!(stamped.ts_first.secs > 1_600_000_000);
    assert_eq!(stamped.src_port, 8080);
}

#[test]
fn the_blank_flow() {
    let blank = FlowEvent::default();
    assert_eq!(blank.ts_first, Timestamp::new(0, 0));
    assert_eq!(blank.ts_last, Timestamp::new(0, 0));
    assert_eq!(blank.proto, "");
    assert_eq!(blank.src_ip, "");
    assert_eq!(blank.dst_ip, "");
    assert_eq!(blank.src_port, 0);
    assert_eq!(blank.dst_port, 0);
    assert_eq!(blank.direction, FlowDirection::Inbound);
    assert_eq!(blank.bytes, 0);
    assert_eq!(blank.packets, 0);
    assert!(blank.iface.is_none() && blank.state.is_none() && blank.process.is_none());
    assert!(blank.layer2.is_none() && blank.risk.is_none() && blank.sni.is_none());
    assert!(blank.alpn.is_none() && blank.ja3.is_none() && blank.dns_qname.is_none());
    assert!(blank.dns_qtype.is_none() && blank.dns_rcode.is_none());
}

#[test]
fn flows_clone_field_by_field() {
    let mut event = sample_listener_event_at(Timestamp::new(9, 9));
    event.dns_qname = Some("example.org".into());
    event.bytes = 77;
    let copy = event.clone();
    assert_eq!(copy.src_port, event.src_port);
    assert_eq!(copy.iface, event.iface);
    assert_eq!(copy.dns_qname, Some("example.org".to_string()));
    assert_eq!(copy.bytes, 77);
    assert_eq!(copy.ts_last, Timestamp::new(9, 9));
}

#[test]
fn collector_errors_have_messages() {
    assert_eq!(
        CollectorError::Unsupported("platform".into()).message(),
        "feature not supported on this platform: platform"
    );
    assert_eq!(
        CollectorError::Initialization("no driver".into()).message(),
        "initialization failed: no driver"
    );
    assert_eq!(CollectorError::Io("broken pipe".into()).message(), "io error: broken pipe");
}
