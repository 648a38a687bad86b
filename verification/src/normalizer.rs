//! The normalizer: a flow event projected onto a window of time.

use vstd::prelude::*;
use crate::flow::{copy_opt_text, opt_text, process_name, process_name_of, FlowDirection, FlowEvent};
use crate::time::{Duration, Timestamp};

verus! {

/// A flow inside its window, as the rules see it.
#[derive(Debug)]
pub struct NormalizedFlow {
    pub window_start: Timestamp,
    pub window_end: Timestamp,
    pub proto: String,
    pub src_ip: String,
    pub src_port: u16,
    pub dst_ip: String,
    pub dst_port: u16,
    pub direction: FlowDirection,
    pub bytes: u64,
    pub packets: u64,
    pub process: Option<String>,
}

/// A [`NormalizedFlow`] with its strings as texts.
pub struct NormalizedFlowView {
    pub window_start: Timestamp,
    pub window_end: Timestamp,
    pub proto: Seq<char>,
    pub src_ip: Seq<char>,
    pub src_port: u16,
    pub dst_ip: Seq<char>,
    pub dst_port: u16,
    pub direction: FlowDirection,
    pub bytes: u64,
    pub packets: u64,
    pub process: Option<Seq<char>>,
}

impl View for NormalizedFlow {
    type V = NormalizedFlowView;

    open spec fn view(&self) -> NormalizedFlowView {
        NormalizedFlowView {
            window_start: self.window_start,
            window_end: self.window_end,
            proto: self.proto@,
            src_ip: self.src_ip@,
            src_port: self.src_port,
            dst_ip: self.dst_ip@,
            dst_port: self.dst_port,
            direction: self.direction,
            bytes: self.bytes,
            packets: self.packets,
            process: opt_text(self.process),
        }
    }
}

impl NormalizedFlow {
    /// The window starts on a whole second and ends after it starts.
    pub open spec fn wf(self) -> bool {
        &&& self.window_start.nanos == 0
        &&& self.window_end.wf()
        &&& self.window_start.as_nanos() < self.window_end.as_nanos()
    }
}

impl Clone for NormalizedFlow {
    fn clone(&self) -> (r: Self)
        ensures
            r == *self,
    {
        NormalizedFlow {
            window_start: self.window_start,
            window_end: self.window_end,
            proto: self.proto.clone(),
            src_ip: self.src_ip.clone(),
            src_port: self.src_port,
            dst_ip: self.dst_ip.clone(),
            dst_port: self.dst_port,
            direction: self.direction,
            bytes: self.bytes,
            packets: self.packets,
            process: copy_opt_text(&self.process),
        }
    }
}

/// Why an event has no window.
#[derive(Debug, Clone, Copy, PartialEq, Eq, Structural)]
pub enum NormalizeError {
    /// The event's first timestamp is not a well-formed instant.
    InvalidTimestamp,
    /// The end of the window lies beyond what a timestamp can hold.
    OutOfRange,
}

impl NormalizeError {
    /// The text of the error as shown to an operator.
    pub open spec fn message_text(self) -> Seq<char> {
        match self {
            NormalizeError::InvalidTimestamp => "timestamp is not well formed"@,
            NormalizeError::OutOfRange => "window end out of range"@,
        }
    }

    /// The text of the error as shown to an operator.
    pub fn message(&self) -> (r: &'static str)
        ensures
            r@ == self.message_text(),
    {
        match self {
            NormalizeError::InvalidTimestamp => "timestamp is not well formed",
            NormalizeError::OutOfRange => "window end out of range",
        }
    }
}

/// Projects flow events onto windows of a fixed length. The length is a
/// well-formed span; it may be zero or negative, and the window then ends at
/// or before the event's first timestamp.
pub struct Normalizer {
    window: Duration,
}

/// The window that starts at the second of `first` and ends `window` after
/// `first`, or why there is none.
pub open spec fn window_of(first: Timestamp, window: Duration) -> Result<
    (Timestamp, Timestamp),
    NormalizeError,
> {
    if !first.wf() {
        Err(NormalizeError::InvalidTimestamp)
    } else if !(i64::MIN <= (first.as_nanos() + window.as_nanos()) / 1_000_000_000 <= i64::MAX) {
        Err(NormalizeError::OutOfRange)
    } else {
        let end = first.as_nanos() + window.as_nanos();
        Ok(
            (
                Timestamp { secs: first.secs, nanos: 0 },
                Timestamp {
                    secs: (end / 1_000_000_000) as i64,
                    nanos: (end % 1_000_000_000) as u32,
                },
            ),
        )
    }
}

/// The normalized form of an event inside the window from `start` to `end`:
/// the name of the owning process, and every other field as it was.
pub open spec fn projection(e: FlowEvent, start: Timestamp, end: Timestamp) -> NormalizedFlowView {
    NormalizedFlowView {
        window_start: start,
        window_end: end,
        proto: e.proto@,
        src_ip: e.src_ip@,
        src_port: e.src_port,
        dst_ip: e.dst_ip@,
        dst_port: e.dst_port,
        direction: e.direction,
        bytes: e.bytes,
        packets: e.packets,
        process: process_name(e.process),
    }
}

/// The length of the window where none is asked for: sixty seconds.
pub const DEFAULT_WINDOW_SECS: i64 = 60;

impl Default for Normalizer {
    fn default() -> (r: Self)
        ensures
            r.window() == (Duration { secs: DEFAULT_WINDOW_SECS, nanos: 0 }),
    {
        Normalizer { window: Duration::seconds(DEFAULT_WINDOW_SECS) }
    }
}

impl Normalizer {
    #[verifier::type_invariant]
    spec fn well_formed(self) -> bool {
        self.window.wf()
    }

    /// The length of the window.
    pub closed spec fn window(&self) -> Duration {
        self.window
    }

    /// A normalizer with windows of length `window`.
    pub fn new(window: Duration) -> (r: Self)
        requires
            window.wf(),
        ensures
            r.window() == window,
    {
        Normalizer { window }
    }

    /// The event inside its window. The window starts at the whole second of
    /// the event's first timestamp and ends one window length after that
    /// timestamp. Every event with a well-formed first timestamp has a
    /// window, as far as 64-bit seconds reach; where the window length is
    /// positive the timestamp lies inside the window.
    pub fn normalize(&self, event: FlowEvent) -> (r: Result<NormalizedFlow, NormalizeError>)
        ensures
            match window_of(event.ts_first, self.window()) {
                Ok((start, end)) => r is Ok && r->Ok_0@ == projection(event, start, end),
                Err(e) => r == Err::<NormalizedFlow, NormalizeError>(e),
            },
            r matches Ok(n) ==> {
                &&& n.window_start.nanos == 0
                &&& n.window_start.secs == event.ts_first.secs
                &&& n.window_start.as_nanos() <= event.ts_first.as_nanos()
                &&& n.window_end.wf()
                &&& n.window_end.as_nanos() - event.ts_first.as_nanos() == self.window().as_nanos()
            },
            r matches Ok(n) ==> (self.window().as_nanos() > 0 ==> n.wf()
                && event.ts_first.as_nanos() < n.window_end.as_nanos()),
    {
        proof {
            use_type_invariant(self);
        }
        let first = event.ts_first;
        if first.nanos >= 1_000_000_000 {
            return Err(NormalizeError::InvalidTimestamp);
        }
        let window_start = first.truncate_to_second();
        match first.checked_add(self.window) {
            None => Err(NormalizeError::OutOfRange),
            Some(window_end) => {
                proof {
                    crate::time::lemma_split_seconds(window_end.secs as int, window_end.nanos as int);
                }
                let process = process_name_of(&event.process);
                Ok(
                    NormalizedFlow {
                        window_start,
                        window_end,
                        proto: event.proto,
                        src_ip: event.src_ip,
                        src_port: event.src_port,
                        dst_ip: event.dst_ip,
                        dst_port: event.dst_port,
                        direction: event.direction,
                        bytes: event.bytes,
                        packets: event.packets,
                        process,
                    },
                )
            },
        }
    }
}

} // verus!
