//! The fallback collector's parser: the lines of a `netstat -ano` listing read
//! as flows.

use vstd::prelude::*;
use crate::address::{direction_of, infer_direction};
use crate::flow::{blank_flow, opt_process, FlowEvent, FlowEventView, ProcessIdentity};
use crate::text::{
    chars_of, eq_ignore_ascii_case, parse_i32, parse_signed, parse_u16, parse_unsigned, slice_of,
    spells_ignoring_case, split, split_on, split_whitespace, string_of, tail_run_len, texts,
    trailing_run, trim, trimmed, words, CharSet,
};
use crate::time::{wall_clock, Timestamp};

verus! {

/// A flow read from one line of a listing, and the id of the process that the
/// line names.
#[derive(Debug)]
pub struct NetstatRow {
    pub event: FlowEvent,
    pub pid: i32,
}

/// The port that a text denotes, or zero where it denotes none.
pub open spec fn port_or_zero(t: Seq<char>) -> u16 {
    match parse_unsigned(t, 0xFFFF) {
        Some(n) => n as u16,
        None => 0,
    }
}

/// The process id that a text denotes, or zero where it denotes none.
pub open spec fn pid_or_zero(t: Seq<char>) -> i32 {
    match parse_signed(t, -0x8000_0000, 0x7FFF_FFFF) {
        Some(n) => n as i32,
        None => 0,
    }
}

/// The address and the port of an endpoint as a listing writes it. The port
/// stands behind the last colon; what stands before it is the address, given
/// without the square brackets that may surround it. An endpoint without a
/// colon is all address.
pub open spec fn address_parts(addr: Seq<char>) -> (Seq<char>, u16) {
    let n = tail_run_len(addr, CharSet::AllBut(':'));
    if n >= addr.len() {
        (trim(addr, CharSet::OneOf('[', ']')), 0u16)
    } else {
        (
            trim(addr.take(addr.len() - n - 1), CharSet::OneOf('[', ']')),
            port_or_zero(addr.skip(addr.len() - n)),
        )
    }
}

/// Executable [`address_parts`].
pub fn split_address(addr: &Vec<char>) -> (r: (String, u16))
    ensures
        (r.0@, r.1) == address_parts(addr@),
{
    let n = trailing_run(addr, addr.len(), CharSet::AllBut(':'));
    assert(addr@.take(addr.len() as int) == addr@);
    if n >= addr.len() {
        let ip = trimmed(addr, CharSet::OneOf('[', ']'));
        return (string_of(&ip), 0);
    }
    let ip_part = slice_of(addr, 0, addr.len() - n - 1);
    let port_part = slice_of(addr, addr.len() - n, addr.len());
    assert(ip_part@ == addr@.take(addr.len() - n - 1));
    assert(port_part@ == addr@.skip(addr.len() - n));
    let port = match parse_u16(&port_part) {
        Some(p) => p,
        None => 0,
    };
    let ip = trimmed(&ip_part, CharSet::OneOf('[', ']'));
    (string_of(&ip), port)
}

/// The word at place `i`, where there is one.
pub open spec fn word_at(w: Seq<Seq<char>>, i: int) -> Option<Seq<char>> {
    if 0 <= i < w.len() {
        Some(w[i])
    } else {
        None
    }
}

/// The flow and the process id that the words of a line denote. A line is a
/// flow when it has at least three words and the first is `tcp` or `udp` in
/// any case; the second and third are the local and the remote endpoint. A
/// TCP line goes on with the state and the process id, a UDP line with the
/// process id alone; a missing or unreadable id counts as zero.
pub open spec fn netstat_row(w: Seq<Seq<char>>, now: Timestamp) -> Option<(FlowEventView, i32)> {
    if w.len() < 3 {
        None
    } else {
        let tcp = eq_ignore_ascii_case(w[0], "tcp"@);
        let udp = eq_ignore_ascii_case(w[0], "udp"@);
        if !tcp && !udp {
            None
        } else {
            let local = address_parts(w[1]);
            let remote = address_parts(w[2]);
            let pid_word = if tcp {
                word_at(w, 4)
            } else {
                word_at(w, 3)
            };
            Some(
                (
                    FlowEventView {
                        ts_first: now,
                        ts_last: now,
                        proto: if tcp {
                            "TCP"@
                        } else {
                            "UDP"@
                        },
                        src_ip: local.0,
                        src_port: local.1,
                        dst_ip: remote.0,
                        dst_port: remote.1,
                        direction: direction_of(local.0, remote.0),
                        state: if tcp {
                            word_at(w, 3)
                        } else {
                            None
                        },
                        ..blank_flow()
                    },
                    match pid_word {
                        Some(t) => pid_or_zero(t),
                        None => 0i32,
                    },
                ),
            )
        }
    }
}

/// The view of an optional row.
pub open spec fn row_view(r: Option<NetstatRow>) -> Option<(FlowEventView, i32)> {
    match r {
        Some(row) => Some((row.event@, row.pid)),
        None => None,
    }
}

/// The views of a sequence of rows.
pub open spec fn row_views(v: Seq<NetstatRow>) -> Seq<(FlowEventView, i32)> {
    v.map_values(|row: NetstatRow| (row.event@, row.pid))
}

/// The rows that the lines of a listing denote, in order; a line that is no
/// flow gives no row.
pub open spec fn snapshot_rows(lines: Seq<Seq<char>>, now: Timestamp) -> Seq<(FlowEventView, i32)>
    decreases lines.len(),
{
    if lines.len() == 0 {
        Seq::empty()
    } else {
        let earlier = snapshot_rows(lines.drop_last(), now);
        match netstat_row(words(lines.last()), now) {
            Some(row) => earlier.push(row),
            None => earlier,
        }
    }
}

/// Reads the words of a line as a flow seen at `now`.
pub fn parse_netstat_words(w: &Vec<Vec<char>>, now: Timestamp) -> (r: Option<NetstatRow>)
    ensures
        row_view(r) == netstat_row(texts(w@), now),
{
    if w.len() < 3 {
        return None;
    }
    assert(texts(w@)[0] == w@[0]@);
    assert(texts(w@)[1] == w@[1]@);
    assert(texts(w@)[2] == w@[2]@);
    let tcp = spells_ignoring_case(&w[0], "tcp");
    let udp = spells_ignoring_case(&w[0], "udp");
    if !tcp && !udp {
        return None;
    }
    let (local_ip, local_port) = split_address(&w[1]);
    let (remote_ip, remote_port) = split_address(&w[2]);
    let state = if tcp && w.len() > 3 {
        assert(texts(w@)[3] == w@[3]@);
        Some(string_of(&w[3]))
    } else {
        None
    };
    let pid_at: usize = if tcp {
        4
    } else {
        3
    };
    let pid = if w.len() > pid_at {
        assert(texts(w@)[pid_at as int] == w@[pid_at as int]@);
        match parse_i32(&w[pid_at]) {
            Some(p) => p,
            None => 0,
        }
    } else {
        0
    };
    let direction = infer_direction(local_ip.as_str(), remote_ip.as_str());
    let proto = if tcp {
        "TCP".to_owned()
    } else {
        "UDP".to_owned()
    };
    let event = FlowEvent {
        ts_first: now,
        ts_last: now,
        proto,
        src_ip: local_ip,
        src_port: local_port,
        dst_ip: remote_ip,
        dst_port: remote_port,
        iface: None,
        direction,
        state,
        bytes: 0,
        packets: 0,
        process: None,
        layer2: None,
        risk: None,
        sni: None,
        alpn: None,
        ja3: None,
        dns_qname: None,
        dns_qtype: None,
        dns_rcode: None,
    };
    Some(NetstatRow { event, pid })
}

/// Reads a line of a listing as a flow seen at the wall clock's time.
pub fn parse_netstat_line(line: &str) -> (r: Option<NetstatRow>)
    ensures
        exists|now: Timestamp| now.wf() && row_view(r) == netstat_row(words(line@), now),
{
    let now = wall_clock();
    let r = parse_netstat_line_at(line, now);
    assert(now.wf() && row_view(r) == netstat_row(words(line@), now));
    r
}

/// Reads a line of a listing as a flow seen at `now`.
pub fn parse_netstat_line_at(line: &str, now: Timestamp) -> (r: Option<NetstatRow>)
    ensures
        row_view(r) == netstat_row(words(line@), now),
{
    let v = chars_of(line);
    let w = split_whitespace(&v);
    parse_netstat_words(&w, now)
}

/// Reads a whole listing, line by line, as the flows seen at `now`.
pub fn collect_snapshot(listing: &str, now: Timestamp) -> (r: Vec<NetstatRow>)
    ensures
        row_views(r@) == snapshot_rows(split(listing@, '\n'), now),
{
    let v = chars_of(listing);
    let lines = split_on(&v, '\n');
    let mut out: Vec<NetstatRow> = Vec::new();
    let mut i: usize = 0;
    assert(row_views(out@) =~= Seq::<(FlowEventView, i32)>::empty());
    while i < lines.len()
        invariant
            i <= lines.len(),
            texts(lines@) == split(listing@, '\n'),
            row_views(out@) == snapshot_rows(texts(lines@).take(i as int), now),
        decreases lines.len() - i,
    {
        let ghost all = texts(lines@);
        assert(all.take(i + 1).drop_last() == all.take(i as int));
        assert(all.take(i + 1).last() == lines@[i as int]@);
        let w = split_whitespace(&lines[i]);
        let ghost before = row_views(out@);
        match parse_netstat_words(&w, now) {
            Some(row) => {
                out.push(row);
                assert(row_views(out@) =~= before.push((row.event@, row.pid)));
            },
            None => {},
        }
        i = i + 1;
    }
    assert(texts(lines@).take(lines.len() as int) == texts(lines@));
    out
}

impl NetstatRow {
    /// The flow of the row with the identity of its process. A row that
    /// names no process, by an id of zero or less, gets none.
    pub fn with_process(self, identity: Option<ProcessIdentity>) -> (r: FlowEvent)
        ensures
            r@ == (FlowEventView {
                process: if self.pid > 0 {
                    opt_process(identity)
                } else {
                    None
                },
                ..self.event@
            }),
    {
        let mut event = self.event;
        if self.pid > 0 {
            event.process = identity;
        } else {
            event.process = None;
        }
        event
    }
}

} // verus!
