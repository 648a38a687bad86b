//! The table-driven collector: rows of the kernel's TCP and UDP tables turned
//! into flows.

use vstd::prelude::*;
use crate::address::{direction_of, infer_direction, port_from_raw, port_of_word};
use crate::flow::{blank_flow, FlowDirection, FlowEvent, FlowEventView, ProcessIdentityView};
use crate::process::{identity_of, ProcessInfoCollector, ProcessProbe};
use crate::time::Timestamp;

verus! {

/// A row of a TCP table. The addresses are given as text; the ports are the
/// raw words of the table.
#[derive(Debug)]
pub struct TcpRow {
    pub local_addr: String,
    pub local_port: u32,
    pub remote_addr: String,
    pub remote_port: u32,
    pub state: u32,
    pub owning_pid: u32,
    pub probe: ProcessProbe,
}

/// A row of a UDP table.
#[derive(Debug)]
pub struct UdpRow {
    pub local_addr: String,
    pub local_port: u32,
    pub owning_pid: u32,
    pub v6: bool,
    pub probe: ProcessProbe,
}

/// The name of a TCP state code.
pub open spec fn tcp_state_name(state: u32) -> Seq<char> {
    if state == 1 {
        "CLOSED"@
    } else if state == 2 {
        "LISTEN"@
    } else if state == 3 {
        "SYN_SENT"@
    } else if state == 4 {
        "SYN_RCVD"@
    } else if state == 5 {
        "ESTABLISHED"@
    } else if state == 6 {
        "FIN_WAIT1"@
    } else if state == 7 {
        "FIN_WAIT2"@
    } else if state == 8 {
        "CLOSE_WAIT"@
    } else if state == 9 {
        "CLOSING"@
    } else if state == 10 {
        "LAST_ACK"@
    } else if state == 11 {
        "TIME_WAIT"@
    } else if state == 12 {
        "DELETE_TCB"@
    } else {
        "UNKNOWN"@
    }
}

/// The process id of a table row as a signed number: the same 32 bits.
pub open spec fn signed_pid(pid: u32) -> i32 {
    if pid < 0x8000_0000 {
        pid as i32
    } else {
        (pid - 0x1_0000_0000) as i32
    }
}

/// The identity of the process that owns a row: that of its probe, where the
/// id is positive.
pub open spec fn owner_of(pid: u32, probe: ProcessProbe) -> Option<ProcessIdentityView> {
    if signed_pid(pid) > 0 {
        Some(identity_of(signed_pid(pid), probe))
    } else {
        None
    }
}

/// The flow that a TCP row denotes.
pub open spec fn tcp_event(row: TcpRow, now: Timestamp) -> FlowEventView {
    FlowEventView {
        ts_first: now,
        ts_last: now,
        proto: "TCP"@,
        src_ip: row.local_addr@,
        src_port: port_of_word(row.local_port),
        dst_ip: row.remote_addr@,
        dst_port: port_of_word(row.remote_port),
        direction: direction_of(row.local_addr@, row.remote_addr@),
        state: Some(tcp_state_name(row.state)),
        process: owner_of(row.owning_pid, row.probe),
        ..blank_flow()
    }
}

/// The flow that a UDP row denotes: a listener on the local endpoint.
pub open spec fn udp_event(row: UdpRow, now: Timestamp) -> FlowEventView {
    FlowEventView {
        ts_first: now,
        ts_last: now,
        proto: "UDP"@,
        src_ip: row.local_addr@,
        src_port: port_of_word(row.local_port),
        dst_ip: if row.v6 {
            "::"@
        } else {
            "0.0.0.0"@
        },
        dst_port: 0,
        direction: FlowDirection::Inbound,
        state: Some("LISTEN"@),
        process: owner_of(row.owning_pid, row.probe),
        ..blank_flow()
    }
}

/// The views of a sequence of flows.
pub open spec fn event_views(v: Seq<FlowEvent>) -> Seq<FlowEventView> {
    v.map_values(|e: FlowEvent| e@)
}

/// The flows of a table; a table that could not be read has none.
pub open spec fn tcp_events(table: Option<Vec<TcpRow>>, now: Timestamp) -> Seq<FlowEventView> {
    match table {
        Some(rows) => rows@.map_values(|row: TcpRow| tcp_event(row, now)),
        None => Seq::empty(),
    }
}

/// The flows of a table; a table that could not be read has none.
pub open spec fn udp_events(table: Option<Vec<UdpRow>>, now: Timestamp) -> Seq<FlowEventView> {
    match table {
        Some(rows) => rows@.map_values(|row: UdpRow| udp_event(row, now)),
        None => Seq::empty(),
    }
}

/// Turns table rows into flows.
pub struct NetworkMonitor;

impl NetworkMonitor {
    /// The flows of the IPv4 and the IPv6 TCP table, in that order. A table
    /// that could not be read, given as `None`, adds nothing.
    pub fn collect_tcp_connections(
        v4: &Option<Vec<TcpRow>>,
        v6: &Option<Vec<TcpRow>>,
        now: Timestamp,
    ) -> (r: Vec<FlowEvent>)
        ensures
            event_views(r@) == tcp_events(*v4, now) + tcp_events(*v6, now),
    {
        let mut events: Vec<FlowEvent> = Vec::new();
        assert(event_views(events@) =~= Seq::<FlowEventView>::empty());
        Self::append_tcp(&mut events, v4, now);
        Self::append_tcp(&mut events, v6, now);
        assert(event_views(events@) =~= tcp_events(*v4, now) + tcp_events(*v6, now));
        events
    }

    /// The flows of the IPv4 and the IPv6 UDP table, in that order.
    pub fn collect_udp_endpoints(
        v4: &Option<Vec<UdpRow>>,
        v6: &Option<Vec<UdpRow>>,
        now: Timestamp,
    ) -> (r: Vec<FlowEvent>)
        ensures
            event_views(r@) == udp_events(*v4, now) + udp_events(*v6, now),
    {
        let mut events: Vec<FlowEvent> = Vec::new();
        assert(event_views(events@) =~= Seq::<FlowEventView>::empty());
        Self::append_udp(&mut events, v4, now);
        Self::append_udp(&mut events, v6, now);
        assert(event_views(events@) =~= udp_events(*v4, now) + udp_events(*v6, now));
        events
    }

    fn append_tcp(events: &mut Vec<FlowEvent>, table: &Option<Vec<TcpRow>>, now: Timestamp)
        ensures
            event_views(final(events)@) == event_views(old(events)@) + tcp_events(*table, now),
    {
        match table {
            Some(rows) => {
                let ghost start = event_views(events@);
                let mut i: usize = 0;
                assert(rows@.take(0).map_values(|row: TcpRow| tcp_event(row, now)) =~= Seq::<
                    FlowEventView,
                >::empty());
                while i < rows.len()
                    invariant
                        i <= rows.len(),
                        event_views(events@) =~= start + rows@.take(i as int).map_values(
                            |row: TcpRow| tcp_event(row, now),
                        ),
                    decreases rows.len() - i,
                {
                    let event = Self::tcp_row_to_event(&rows[i], now);
                    let ghost before = event_views(events@);
                    events.push(event);
                    assert(event_views(events@) =~= before.push(event@));
                    assert(rows@.take(i + 1).map_values(|row: TcpRow| tcp_event(row, now))
                        =~= rows@.take(i as int).map_values(|row: TcpRow| tcp_event(row, now)).push(
                        tcp_event(rows@[i as int], now),
                    ));
                    i = i + 1;
                }
                assert(rows@.take(rows.len() as int) == rows@);
            },
            None => {
                assert(event_views(events@) + Seq::<FlowEventView>::empty() =~= event_views(
                    events@,
                ));
            },
        }
    }

    fn append_udp(events: &mut Vec<FlowEvent>, table: &Option<Vec<UdpRow>>, now: Timestamp)
        ensures
            event_views(final(events)@) == event_views(old(events)@) + udp_events(*table, now),
    {
        match table {
            Some(rows) => {
                let ghost start = event_views(events@);
                let mut i: usize = 0;
                assert(rows@.take(0).map_values(|row: UdpRow| udp_event(row, now)) =~= Seq::<
                    FlowEventView,
                >::empty());
                while i < rows.len()
                    invariant
                        i <= rows.len(),
                        event_views(events@) =~= start + rows@.take(i as int).map_values(
                            |row: UdpRow| udp_event(row, now),
                        ),
                    decreases rows.len() - i,
                {
                    let event = Self::udp_row_to_event(&rows[i], now);
                    let ghost before = event_views(events@);
                    events.push(event);
                    assert(event_views(events@) =~= before.push(event@));
                    assert(rows@.take(i + 1).map_values(|row: UdpRow| udp_event(row, now))
                        =~= rows@.take(i as int).map_values(|row: UdpRow| udp_event(row, now)).push(
                        udp_event(rows@[i as int], now),
                    ));
                    i = i + 1;
                }
                assert(rows@.take(rows.len() as int) == rows@);
            },
            None => {
                assert(event_views(events@) + Seq::<FlowEventView>::empty() =~= event_views(
                    events@,
                ));
            },
        }
    }

    /// The process id of a table row as a signed number.
    pub fn pid_of(pid: u32) -> (r: i32)
        ensures
            r == signed_pid(pid),
    {
        if pid < 0x8000_0000 {
            pid as i32
        } else {
            ((pid as i64) - 0x1_0000_0000) as i32
        }
    }

    /// The flow that a TCP row denotes.
    pub fn tcp_row_to_event(row: &TcpRow, now: Timestamp) -> (r: FlowEvent)
        ensures
            r@ == tcp_event(*row, now),
    {
        let process = ProcessInfoCollector::get_process_info(
            Self::pid_of(row.owning_pid),
            &row.probe,
        );
        FlowEvent {
            ts_first: now,
            ts_last: now,
            proto: "TCP".to_owned(),
            src_ip: row.local_addr.clone(),
            src_port: port_from_raw(row.local_port),
            dst_ip: row.remote_addr.clone(),
            dst_port: port_from_raw(row.remote_port),
            iface: None,
            direction: infer_direction(row.local_addr.as_str(), row.remote_addr.as_str()),
            state: Some(Self::tcp_state_to_string(row.state)),
            bytes: 0,
            packets: 0,
            process,
            layer2: None,
            risk: None,
            sni: None,
            alpn: None,
            ja3: None,
            dns_qname: None,
            dns_qtype: None,
            dns_rcode: None,
        }
    }

    /// The flow that a UDP row denotes.
    pub fn udp_row_to_event(row: &UdpRow, now: Timestamp) -> (r: FlowEvent)
        ensures
            r@ == udp_event(*row, now),
    {
        let process = ProcessInfoCollector::get_process_info(
            Self::pid_of(row.owning_pid),
            &row.probe,
        );
        FlowEvent {
            ts_first: now,
            ts_last: now,
            proto: "UDP".to_owned(),
            src_ip: row.local_addr.clone(),
            src_port: port_from_raw(row.local_port),
            dst_ip: if row.v6 {
                "::".to_owned()
            } else {
                "0.0.0.0".to_owned()
            },
            dst_port: 0,
            iface: None,
            direction: FlowDirection::Inbound,
            state: Some("LISTEN".to_owned()),
            bytes: 0,
            packets: 0,
            process,
            layer2: None,
            risk: None,
            sni: None,
            alpn: None,
            ja3: None,
            dns_qname: None,
            dns_qtype: None,
            dns_rcode: None,
        }
    }

    /// The name of a TCP state code.
    pub fn tcp_state_to_string(state: u32) -> (r: String)
        ensures
            r@ == tcp_state_name(state),
    {
        let name = if state == 1 {
            "CLOSED"
        } else if state == 2 {
            "LISTEN"
        } else if state == 3 {
            "SYN_SENT"
        } else if state == 4 {
            "SYN_RCVD"
        } else if state == 5 {
            "ESTABLISHED"
        } else if state == 6 {
            "FIN_WAIT1"
        } else if state == 7 {
            "FIN_WAIT2"
        } else if state == 8 {
            "CLOSE_WAIT"
        } else if state == 9 {
            "CLOSING"
        } else if state == 10 {
            "LAST_ACK"
        } else if state == 11 {
            "TIME_WAIT"
        } else if state == 12 {
            "DELETE_TCB"
        } else {
            "UNKNOWN"
        };
        name.to_owned()
    }

    /// The direction of a flow between a local and a remote address.
    pub fn infer_direction(local_ip: &str, remote_ip: &str) -> (r: FlowDirection)
        ensures
            r == direction_of(local_ip@, remote_ip@),
    {
        infer_direction(local_ip, remote_ip)
    }
}

} // verus!
