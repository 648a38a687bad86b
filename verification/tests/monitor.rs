use nets_monitor::monitor::{TcpRow, UdpRow};
use nets_monitor::process::ProcessProbe;
use nets_monitor::{FlowDirection, NetworkMonitor, Timestamp};

fn probe() -> ProcessProbe {
    ProcessProbe {
        name: Some("svc.exe".into()),
        exe_path: None,
        exe_content: None,
        user: None,
        has_version_info: false,
        ppid: None,
    }
}

fn tcp(local: &str, local_port: u32, remote: &str, remote_port: u32, state: u32, pid: u32) -> TcpRow {
    TcpRow {
        local_addr: local.into(),
        local_port,
        remote_addr: remote.into(),
        remote_port,
        state,
        owning_pid: pid,
        probe: probe(),
    }
}

fn udp(local: &str, local_port: u32, pid: u32, v6: bool) -> UdpRow {
    UdpRow { local_addr: local.into(), local_port, owning_pid: pid, v6, probe: probe() }
}

fn now() -> Timestamp {
    Timestamp::new(1_700_000_000, 0)
}

#[test]
fn tcp_rows_become_flows() {
    let event = NetworkMonitor::tcp_row_to_event(&tcp("10.0.0.5", 0x5000, "10.0.0.8", 0xBD01, 5, 4321), now());
    assert_eq!(event.proto, "TCP");
    assert_eq!(event.src_ip, "10.0.0.5");
    assert_eq!(event.src_port, 80);
    assert_eq!(event.dst_ip, "10.0.0.8");
    assert_eq!(event.dst_port, 445);
    assert_eq!(event.direction, FlowDirection::Lateral);
    assert_eq!(event.state, Some("ESTABLISHED".to_string()));
    assert_eq!(event.ts_first, now());
    assert_eq!(event.ts_last, now());
    let owner = event.process.unwrap();
    assert_eq!(owner.pid, 4321);
    assert_eq!(owner.name, Some("svc.exe".to_string()));
}

#[test]
fn udp_rows_are_listeners() {
    let v4 = NetworkMonitor::udp_row_to_event(&udp("0.0.0.0", 0xE914, 2208, false), now());
    assert_eq!(v4.proto, "UDP");
    assert_eq!(v4.src_port, 5353);
    assert_eq!(v4.dst_ip, "0.0.0.0");
    assert_eq!(v4.dst_port, 0);
    assert_eq!(v4.direction, FlowDirection::Inbound);
    assert_eq!(v4.state, Some("LISTEN".to_string()));
    let v6 = NetworkMonitor::udp_row_to_event(&udp("fe80::1", 0x2202, 0, true), now());
    assert_eq!(v6.dst_ip, "::");
    assert_eq!(v6.src_port, 546);
    assert!(v6.process.is_none());
}

#[test]
fn rows_without_positive_pid_have_no_owner() {
    assert!(NetworkMonitor::tcp_row_to_event(&tcp("a", 0, "b", 0, 2, 0), now()).process.is_none());
    assert!(NetworkMonitor::tcp_row_to_event(&tcp("a", 0, "b", 0, 2, 0x8000_0000), now()).process.is_none());
    assert!(NetworkMonitor::tcp_row_to_event(&tcp("a", 0, "b", 0, 2, u32::MAX), now()).process.is_none());
    assert_eq!(NetworkMonitor::pid_of(0x7FFF_FFFF), i32::MAX);
    assert_eq!(NetworkMonitor::pid_of(0x8000_0000), i32::MIN);
    assert_eq!(NetworkMonitor::pid_of(u32::MAX), -1);
}

#[test]
fn state_codes_have_names() {
    let names = [
        "UNKNOWN", "CLOSED", "LISTEN", "SYN_SENT", "SYN_RCVD", "ESTABLISHED", "FIN_WAIT1",
        "FIN_WAIT2", "CLOSE_WAIT", "CLOSING", "LAST_ACK", "TIME_WAIT", "DELETE_TCB", "UNKNOWN",
    ];
    for (code, name) in names.iter().enumerate() {
        assert_eq!(NetworkMonitor::tcp_state_to_string(code as u32), *name);
    }
    assert_eq!(NetworkMonitor::tcp_state_to_string(u32::MAX), "UNKNOWN");
}

#[test]
fn failed_tables_add_nothing() {
    assert!(NetworkMonitor::collect_tcp_connections(&None, &None, now()).is_empty());
    assert!(NetworkMonitor::collect_udp_endpoints(&None, &None, now()).is_empty());
    let v6 = Some(vec![tcp("fe80::1", 0x5000, "fe80::2", 0x5000, 5, 7)]);
    let events = NetworkMonitor::collect_tcp_connections(&None, &v6, now());
    assert_eq!(events.len(), 1);
    assert_eq!(events[0].direction, FlowDirection::Lateral);
}

#[test]
fn tables_are_read_in_order() {
    let v4 = Some(vec![
        tcp("10.0.0.5", 0x0100, "0.0.0.0", 0, 2, 1),
        tcp("10.0.0.5", 0x0200, "8.8.8.8", 0x3500, 5, 2),
    ]);
    let v6 = Some(vec![tcp("::1", 0x0300, "::", 0, 2, 3)]);
    let events = NetworkMonitor::collect_tcp_connections(&v4, &v6, now());
    let ports: Vec<u16> = events.iter().map(|e| e.src_port).collect();
    assert_eq!(ports, vec![1, 2, 3]);
    assert_eq!(events[0].direction, FlowDirection::Inbound);
    assert_eq!(events[1].direction, FlowDirection::Outbound);
    assert_eq!(events[1].dst_port, 53);
    assert_eq!(events[2].direction, FlowDirection::Inbound);
    let u4 = Some(vec![udp("0.0.0.0", 0x0100, 1, false)]);
    let u6 = Some(vec![udp("::", 0x0200, 2, true), udp("::", 0x0300, 3, true)]);
    let endpoints = NetworkMonitor::collect_udp_endpoints(&u4, &u6, now());
    let ports: Vec<u16> = endpoints.iter().map(|e| e.src_port).collect();
    assert_eq!(ports, vec![1, 2, 3]);
    assert_eq!(NetworkMonitor::collect_udp_endpoints(&Some(Vec::new()), &None, now()).len(), 0);
}

#[test]
fn the_monitor_infers_directions() {
    assert_eq!(NetworkMonitor::infer_direction("10.0.0.1", "0.0.0.0"), FlowDirection::Inbound);
    assert_eq!(NetworkMonitor::infer_direction("10.0.0.1", "10.9.9.9"), FlowDirection::Lateral);
    assert_eq!(NetworkMonitor::infer_direction("10.0.0.1", "1.1.1.1"), FlowDirection::Outbound);
}
