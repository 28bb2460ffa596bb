//! An instant with its offset from UTC, held as plain integers.

use chrono::Utc;
use vstd::prelude::*;

verus! {

/// Seconds since the epoch of the first instant that `chrono` can hold, the
/// midnight that begins the year -262143.
pub const MIN_SECS: i64 = -8_334_601_228_800;

/// Seconds since the epoch of the last second that `chrono` can hold, the
/// one that ends the year 262142.
pub const MAX_SECS: i64 = 8_210_266_876_799;

/// Whether three integers describe an instant: the seconds lie in the years
/// that `chrono` can hold, the nanoseconds stay under one second (under two
/// within a minute's last second, where a leap second is written), and the
/// offset is less than a day either way.
pub open spec fn valid_instant(secs: i64, nanos: u32, offset: i32) -> bool {
    &&& MIN_SECS <= secs <= MAX_SECS
    &&& (nanos < 1_000_000_000 || (nanos < 2_000_000_000 && (secs as int) % 60 == 59))
    &&& -86_400 < offset < 86_400
}

/// `chrono::Utc::now`, read through `DateTime::timestamp` and
/// `DateTime::timestamp_subsec_nanos`: the seconds and nanoseconds that the
/// system clock shows. Which instant that is, is the clock's to say; that it
/// is an instant holds of every `DateTime`, since `Utc::now` makes its result
/// by `DateTime::from_timestamp`, which takes no other seconds and
/// nanoseconds.
#[verifier::external_body]
fn clock() -> (r: (i64, u32))
    ensures
        valid_instant(r.0, r.1, 0),
{
    let now = Utc::now();
    (now.timestamp(), now.timestamp_subsec_nanos())
}

/// An instant with the offset of the time zone it was written in.
#[derive(Debug, Clone, Copy, PartialEq, Eq, Structural)]
pub struct Timestamp {
    secs: i64,
    nanos: u32,
    offset: i32,
}

impl Timestamp {
    /// The three integers describe an instant. This holds of every
    /// timestamp: no other can be made.
    #[verifier::type_invariant]
    pub closed spec fn wf(self) -> bool {
        valid_instant(self.secs, self.nanos, self.offset)
    }

    /// Whole seconds since 1970-01-01T00:00:00Z.
    pub closed spec fn spec_secs(self) -> i64 {
        self.secs
    }

    /// Nanoseconds since the last whole second.
    pub closed spec fn spec_nanos(self) -> u32 {
        self.nanos
    }

    /// Seconds that local time is ahead of UTC.
    pub closed spec fn spec_offset(self) -> i32 {
        self.offset
    }

    /// The same instant, written in UTC.
    pub closed spec fn spec_in_utc(self) -> Timestamp {
        Timestamp { secs: self.secs, nanos: self.nanos, offset: 0 }
    }

    /// Makes a timestamp, or nothing where the integers describe no instant.
    pub fn new(secs: i64, nanos: u32, offset: i32) -> (r: Option<Timestamp>)
        ensures
            r is Some <==> valid_instant(secs, nanos, offset),
            r matches Some(t) ==> t.spec_secs() == secs && t.spec_nanos() == nanos
                && t.spec_offset() == offset,
    {
        if secs < MIN_SECS || secs > MAX_SECS || offset <= -86_400 || offset >= 86_400 {
            return None;
        }
        let since_min: i64 = secs - MIN_SECS;
        let last_second: bool = since_min % 60 == 59;
        if nanos < 1_000_000_000 || (nanos < 2_000_000_000 && last_second) {
            Some(Timestamp { secs, nanos, offset })
        } else {
            None
        }
    }

    /// The current instant as the system clock shows it, written in UTC.
    pub fn now() -> (r: Timestamp)
        ensures
            r.spec_offset() == 0,
    {
        let (secs, nanos) = clock();
        Timestamp { secs, nanos, offset: 0 }
    }

    /// Whole seconds since 1970-01-01T00:00:00Z.
    pub fn secs(&self) -> (r: i64)
        ensures
            r == self.spec_secs(),
    {
        self.secs
    }

    /// Nanoseconds since the last whole second.
    pub fn nanos(&self) -> (r: u32)
        ensures
            r == self.spec_nanos(),
    {
        self.nanos
    }

    /// Seconds that local time is ahead of UTC.
    pub fn offset(&self) -> (r: i32)
        ensures
            r == self.spec_offset(),
    {
        self.offset
    }

    /// The same instant, written in UTC.
    pub fn in_utc(&self) -> (r: Timestamp)
        ensures
            r == self.spec_in_utc(),
    {
        proof {
            use_type_invariant(self);
        }
        Timestamp { secs: self.secs, nanos: self.nanos, offset: 0 }
    }
}

/// A well-formed timestamp holds three integers that describe an instant.
pub proof fn lemma_wf_is_valid_instant(t: Timestamp)
    ensures
        t.wf() == valid_instant(t.spec_secs(), t.spec_nanos(), t.spec_offset()),
{
}

/// Writing an instant in UTC keeps the instant and sets the offset to zero;
/// an instant already in UTC is unchanged.
pub proof fn lemma_in_utc(t: Timestamp)
    ensures
        t.spec_in_utc().spec_secs() == t.spec_secs(),
        t.spec_in_utc().spec_nanos() == t.spec_nanos(),
        t.spec_in_utc().spec_offset() == 0,
        t.wf() ==> t.spec_in_utc().wf(),
        t.spec_offset() == 0 ==> t.spec_in_utc() == t,
{
}

/// A timestamp is determined by its three integers.
pub proof fn lemma_timestamp_eq(a: Timestamp, b: Timestamp)
    requires
        a.spec_secs() == b.spec_secs(),
        a.spec_nanos() == b.spec_nanos(),
        a.spec_offset() == b.spec_offset(),
    ensures
        a == b,
{
}

} // verus!
