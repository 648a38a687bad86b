use nets_monitor::{
    Duration, FlowDirection, FlowEvent, NormalizeError, Normalizer, ProcessIdentity, Timestamp,
};

fn event_at(secs: i64, nanos: u32) -> FlowEvent {
    FlowEvent {
        ts_first: Timestamp::new(secs, nanos),
        ts_last: Timestamp::new(secs + 5, 0),
        proto: "TCP".into(),
        src_ip: "10.0.0.1".into(),
        src_port: 12345,
        dst_ip: "10.0.0.2".into(),
        dst_port: 443,
        iface: Some("eth0".into()),
        direction: FlowDirection::Outbound,
        state: Some("ESTABLISHED".into()),
        bytes: 1024,
        packets: 10,
        ..FlowEvent::default()
    }
}

#[test]
fn normalize_basic() {
    let normalizer = Normalizer::new(Duration::seconds(60));
    let event = FlowEvent {
        ts_first: Timestamp::new(1_700_000_000, 0),
        ts_last: Timestamp::new(1_700_000_005, 0),
        proto: "TCP".into(),
        src_ip: "10.0.0.1".into(),
        src_port: 12345,
        dst_ip: "10.0.0.2".into(),
        dst_port: 443,
        iface: Some("eth0".into()),
        direction: FlowDirection::Outbound,
        state: Some("ESTABLISHED".into()),
        bytes: 1024,
        packets: 10,
        process: None,
        layer2: None,
        risk: None,
        sni: None,
        alpn: None,
        ja3: None,
        dns_qname: None,
        dns_qtype: None,
        dns_rcode: None,
    };
    let normalized = normalizer.normalize(event).unwrap();
    assert_eq!(normalized.bytes, 1024);
    assert_eq!(normalized.dst_port, 443);
}

#[test]
fn window_starts_on_the_second_and_ends_one_window_later() {
    let normalizer = Normalizer::new(Duration::seconds(60));
    let n = normalizer.normalize(event_at(1_700_000_000, 123_456_789)).unwrap();
    assert_eq!(n.window_start, Timestamp::new(1_700_000_000, 0));
    assert_eq!(n.window_end, Timestamp::new(1_700_000_060, 123_456_789));
}

#[test]
fn window_end_carries_nanoseconds() {
    let normalizer = Normalizer::new(Duration { secs: 1, nanos: 600_000_000 });
    let n = normalizer.normalize(event_at(10, 700_000_000)).unwrap();
    assert_eq!(n.window_start, Timestamp::new(10, 0));
    assert_eq!(n.window_end, Timestamp::new(12, 300_000_000));
}

#[test]
fn negative_instants_truncate_downward() {
    let normalizer = Normalizer::new(Duration::seconds(1));
    let n = normalizer.normalize(event_at(-5, 250_000_000)).unwrap();
    assert_eq!(n.window_start, Timestamp::new(-5, 0));
    assert_eq!(n.window_end, Timestamp::new(-4, 250_000_000));
}

#[test]
fn other_fields_are_copied() {
    let normalizer = Normalizer::new(Duration::minutes(1));
    let mut event = event_at(1_700_000_000, 0);
    event.process = Some(ProcessIdentity {
        pid: 7,
        ppid: Some(1),
        name: Some("notesync.exe".into()),
        exe_path: None,
        sha256_16: None,
        user: None,
        signed: None,
    });
    let n = normalizer.normalize(event).unwrap();
    assert_eq!(n.proto, "TCP");
    assert_eq!(n.src_ip, "10.0.0.1");
    assert_eq!(n.src_port, 12345);
    assert_eq!(n.dst_ip, "10.0.0.2");
    assert_eq!(n.direction, FlowDirection::Outbound);
    assert_eq!(n.packets, 10);
    assert_eq!(n.process, Some("notesync.exe".to_string()));
}

#[test]
fn a_process_without_name_projects_to_none() {
    let normalizer = Normalizer::new(Duration::minutes(1));
    let mut event = event_at(0, 0);
    event.process = Some(ProcessIdentity {
        pid: 7,
        ppid: None,
        name: None,
        exe_path: Some("C:\\x.exe".into()),
        sha256_16: None,
        user: None,
        signed: None,
    });
    assert_eq!(normalizer.normalize(event).unwrap().process, None);
}

#[test]
fn the_default_window_is_sixty_seconds() {
    let n = Normalizer::default().normalize(event_at(100, 1)).unwrap();
    assert_eq!(n.window_start, Timestamp::new(100, 0));
    assert_eq!(n.window_end, Timestamp::new(160, 1));
}

#[test]
fn windows_of_zero_or_less_end_at_or_before_the_event() {
    let zero = Normalizer::new(Duration::seconds(0)).normalize(event_at(100, 7)).unwrap();
    assert_eq!(zero.window_start, Timestamp::new(100, 0));
    assert_eq!(zero.window_end, Timestamp::new(100, 7));
    assert_eq!(zero.bytes, 1024);
    let negative = Normalizer::new(Duration::seconds(-60)).normalize(event_at(100, 7)).unwrap();
    assert_eq!(negative.window_start, Timestamp::new(100, 0));
    assert_eq!(negative.window_end, Timestamp::new(40, 7));
    assert_eq!(negative.dst_port, 443);
    let fraction = Normalizer::new(Duration { secs: -1, nanos: 500_000_000 })
        .normalize(event_at(100, 250_000_000))
        .unwrap();
    assert_eq!(fraction.window_end, Timestamp::new(99, 750_000_000));
    let tiny = Normalizer::new(Duration { secs: 0, nanos: 1 }).normalize(event_at(0, 0)).unwrap();
    assert_eq!(tiny.window_end, Timestamp::new(0, 1));
    assert_eq!(NormalizeError::InvalidTimestamp.message(), "timestamp is not well formed");
    assert_eq!(NormalizeError::OutOfRange.message(), "window end out of range");
}

#[test]
fn ill_formed_and_unrepresentable_instants_are_refused() {
    let normalizer = Normalizer::new(Duration::seconds(60));
    assert_eq!(
        normalizer.normalize(event_at(0, 1_000_000_000)).unwrap_err(),
        NormalizeError::InvalidTimestamp
    );
    let mut late = event_at(0, 0);
    late.ts_first = Timestamp::new(i64::MAX - 59, 0);
    assert_eq!(normalizer.normalize(late).unwrap_err(), NormalizeError::OutOfRange);
    let mut early = event_at(0, 0);
    early.ts_first = Timestamp::new(i64::MIN + 59, 0);
    assert_eq!(
        Normalizer::new(Duration::seconds(-60)).normalize(early).unwrap_err(),
        NormalizeError::OutOfRange
    );
    let mut last = event_at(0, 0);
    last.ts_first = Timestamp::new(i64::MAX - 60, 999_999_999);
    assert_eq!(
        normalizer.normalize(last).unwrap().window_end,
        Timestamp::new(i64::MAX, 999_999_999)
    );
}
