//! Instants and spans of time as plain numbers, and the calls into `chrono`
//! that only a calendar can answer.

use vstd::prelude::*;

verus! {

/// Nanoseconds in one second.
pub const NANOS_PER_SEC: u32 = 1_000_000_000;

/// An instant in UTC: whole seconds since 1970-01-01T00:00:00Z and the
/// nanoseconds past that second.
#[derive(Debug, Clone, Copy, PartialEq, Eq, Structural)]
pub struct Timestamp {
    pub secs: i64,
    pub nanos: u32,
}

/// A span of time: `secs` whole seconds plus `nanos` nanoseconds. A negative
/// span has negative `secs`; `nanos` always counts forward.
#[derive(Debug, Clone, Copy, PartialEq, Eq, Structural)]
pub struct Duration {
    pub secs: i64,
    pub nanos: u32,
}

impl Timestamp {
    /// The nanosecond part stays below one second.
    pub open spec fn wf(self) -> bool {
        self.nanos < NANOS_PER_SEC
    }

    /// Nanoseconds since the epoch.
    pub open spec fn as_nanos(self) -> int {
        self.secs * 1_000_000_000 + self.nanos
    }

    /// The instant `secs` seconds and `nanos` nanoseconds after the epoch.
    pub fn new(secs: i64, nanos: u32) -> (r: Self)
        ensures
            r.secs == secs,
            r.nanos == nanos,
    {
        Timestamp { secs, nanos }
    }

    /// The instant that a calendar reports as `secs` seconds and `nanos`
    /// nanoseconds, where a calendar writes a leap second as a nanosecond part
    /// of one second or more: such a reading is taken as the last nanosecond
    /// of the second that it follows.
    pub fn from_calendar(secs: i64, nanos: u32) -> (r: Self)
        ensures
            r.wf(),
            r.secs == secs,
            r.nanos == (if nanos < NANOS_PER_SEC {
                nanos
            } else {
                (NANOS_PER_SEC - 1) as u32
            }),
    {
        if nanos < NANOS_PER_SEC {
            Timestamp { secs, nanos }
        } else {
            Timestamp { secs, nanos: NANOS_PER_SEC - 1 }
        }
    }

    /// 1970-01-01T00:00:00Z.
    pub fn epoch() -> (r: Self)
        ensures
            r.secs == 0,
            r.nanos == 0,
            r.wf(),
    {
        Timestamp { secs: 0, nanos: 0 }
    }

    /// The start of the second that holds this instant.
    pub fn truncate_to_second(self) -> (r: Self)
        ensures
            r.secs == self.secs,
            r.nanos == 0,
            self.wf() ==> r.as_nanos() <= self.as_nanos() < r.as_nanos() + 1_000_000_000,
    {
        Timestamp { secs: self.secs, nanos: 0 }
    }

    /// This instant moved by `span`, or `None` where the seconds of the result
    /// do not fit in 64 bits.
    pub fn checked_add(self, span: Duration) -> (r: Option<Self>)
        requires
            self.wf(),
            span.wf(),
        ensures
            r is Some <==> i64::MIN <= (self.as_nanos() + span.as_nanos()) / 1_000_000_000
                <= i64::MAX,
            r matches Some(t) ==> t.wf() && t.as_nanos() == self.as_nanos() + span.as_nanos(),
    {
        let total_nanos: u32 = self.nanos + span.nanos;
        let carry: i64 = if total_nanos >= NANOS_PER_SEC {
            1
        } else {
            0
        };
        let nanos: u32 = if total_nanos >= NANOS_PER_SEC {
            total_nanos - NANOS_PER_SEC
        } else {
            total_nanos
        };
        let ghost sum = self.as_nanos() + span.as_nanos();
        assert(sum == (self.secs + span.secs + carry) * 1_000_000_000 + nanos);
        assert(sum / 1_000_000_000 == self.secs + span.secs + carry) by {
            lemma_split_seconds(self.secs + span.secs + carry, nanos as int);
        }
        let total: i128 = (self.secs as i128) + (span.secs as i128) + (carry as i128);
        if total < (i64::MIN as i128) || total > (i64::MAX as i128) {
            None
        } else {
            Some(Timestamp { secs: total as i64, nanos })
        }
    }
}

/// A count of nanoseconds made of whole seconds and a part below one second
/// divides back into those seconds.
pub proof fn lemma_split_seconds(secs: int, nanos: int)
    requires
        0 <= nanos < 1_000_000_000,
    ensures
        (secs * 1_000_000_000 + nanos) / 1_000_000_000 == secs,
        (secs * 1_000_000_000 + nanos) % 1_000_000_000 == nanos,
{
    assert((secs * 1_000_000_000 + nanos) / 1_000_000_000 == secs && (secs * 1_000_000_000 + nanos)
        % 1_000_000_000 == nanos) by (nonlinear_arith)
        requires
            0 <= nanos < 1_000_000_000,
    ;
}

impl Duration {
    /// The nanosecond part stays below one second.
    pub open spec fn wf(self) -> bool {
        self.nanos < NANOS_PER_SEC
    }

    /// The span in nanoseconds.
    pub open spec fn as_nanos(self) -> int {
        self.secs * 1_000_000_000 + self.nanos
    }

    /// Whole seconds in the span, rounded toward zero.
    pub open spec fn whole_seconds(self) -> int {
        if self.secs < 0 && self.nanos > 0 {
            self.secs + 1
        } else {
            self.secs as int
        }
    }

    /// Whole minutes in the span, rounded toward zero.
    pub open spec fn whole_minutes(self) -> int {
        let s = self.whole_seconds();
        if s >= 0 {
            s / 60
        } else {
            -((-s) / 60)
        }
    }

    /// A span of `secs` seconds.
    pub fn seconds(secs: i64) -> (r: Self)
        ensures
            r.secs == secs,
            r.nanos == 0,
            r.wf(),
    {
        Duration { secs, nanos: 0 }
    }

    /// A span of `minutes` minutes.
    pub fn minutes(minutes: i64) -> (r: Self)
        requires
            i64::MIN <= minutes * 60 <= i64::MAX,
        ensures
            r.secs == minutes * 60,
            r.nanos == 0,
            r.wf(),
    {
        Duration { secs: minutes * 60, nanos: 0 }
    }

    /// A span of `hours` hours.
    pub fn hours(hours: i64) -> (r: Self)
        requires
            i64::MIN <= hours * 3600 <= i64::MAX,
        ensures
            r.secs == hours * 3600,
            r.nanos == 0,
            r.wf(),
    {
        Duration { secs: hours * 3600, nanos: 0 }
    }

    /// Whole seconds in the span, rounded toward zero.
    pub fn num_seconds(&self) -> (r: i64)
        ensures
            r == self.whole_seconds(),
    {
        if self.secs < 0 && self.nanos > 0 {
            self.secs + 1
        } else {
            self.secs
        }
    }

    /// Whole minutes in the span, rounded toward zero.
    pub fn num_minutes(&self) -> (r: i64)
        ensures
            r == self.whole_minutes(),
    {
        let s = self.num_seconds();
        if s >= 0 {
            s / 60
        } else if s == i64::MIN {
            // -(i64::MIN) does not fit; the quotient is written out
            assert(0x8000_0000_0000_0000int / 60 == 153722867280912930) by (nonlinear_arith);
            -153722867280912930
        } else {
            -((-s) / 60)
        }
    }
}

/// What `chrono` writes for an instant in RFC 3339 form, where it can hold the
/// instant at all.
pub uninterp spec fn rfc3339_text(secs: int, nanos: int) -> Option<Seq<char>>;

/// The instant that `chrono` reads out of an RFC 3339 text, as seconds and
/// nanoseconds since the epoch, where the text is one.
pub uninterp spec fn rfc3339_instant(text: Seq<char>) -> Option<(int, int)>;

/// The instants between the years 0000 and 9999, which every calendar in use
/// here can hold.
pub open spec fn in_common_era(t: Timestamp) -> bool {
    -62_167_219_200 <= t.secs <= 253_402_300_799 && t.nanos < NANOS_PER_SEC
}

/// `chrono::Utc::now`: the wall clock's reading. The clock decides the value;
/// `chrono` builds it from a count of seconds since the epoch and a count of
/// nanoseconds below one second.
#[verifier::external_body]
pub(crate) fn wall_clock() -> (r: Timestamp)
    ensures
        r.wf(),
{
    let now = chrono::Utc::now();
    Timestamp { secs: now.timestamp(), nanos: now.timestamp_subsec_nanos() }
}

/// `chrono::DateTime::from_timestamp` followed by `to_rfc3339`: the text of an
/// instant. `from_timestamp` refuses instants outside its calendar and takes
/// every instant of the years 0000 to 9999.
#[verifier::external_body]
pub(crate) fn format_rfc3339(t: Timestamp) -> (r: Option<String>)
    ensures
        r is Some == rfc3339_text(t.secs as int, t.nanos as int) is Some,
        r matches Some(s) ==> rfc3339_text(t.secs as int, t.nanos as int) == Some(s@),
        in_common_era(t) ==> r is Some,
{
    match chrono::DateTime::from_timestamp(t.secs, t.nanos) {
        Some(instant) => Some(instant.to_rfc3339()),
        None => None,
    }
}

/// `chrono::DateTime::parse_from_rfc3339`: the instant that a text denotes,
/// taken in UTC. The nanosecond part that `chrono` hands out stays below two
/// seconds, the second half being its way to write a leap second.
#[verifier::external_body]
pub(crate) fn parse_rfc3339(text: &str) -> (r: Option<Timestamp>)
    ensures
        r is Some == rfc3339_instant(text@) is Some,
        r matches Some(t) ==> rfc3339_instant(text@) == Some((t.secs as int, t.nanos as int)),
        r matches Some(t) ==> t.nanos < 2_000_000_000,
{
    match chrono::DateTime::parse_from_rfc3339(text) {
        Ok(dt) => Some(Timestamp { secs: dt.timestamp(), nanos: dt.timestamp_subsec_nanos() }),
        Err(_) => None,
    }
}

} // verus!
