//! Plain-valued clocks: spans of time, wall-clock readings and database
//! timestamps.

use vstd::prelude::*;

verus! {

pub const NANOS_PER_SEC: u32 = 1_000_000_000;

pub const NANOS_PER_MILLI: u32 = 1_000_000;

pub const MILLIS_PER_SEC: u64 = 1_000;

pub const MICROS_PER_MILLI: i128 = 1_000;

/// A non-negative span of time, counted in nanoseconds by its view.
///
/// Whole seconds and the fraction below one second are kept apart.
#[derive(Clone, Copy, Debug, Eq)]
pub struct Duration {
    secs: u64,
    nanos: u32,
}

impl View for Duration {
    type V = nat;

    closed spec fn view(&self) -> nat {
        (self.secs * NANOS_PER_SEC + self.nanos) as nat
    }
}

/// Spans are equal when they are as long.
impl PartialEq for Duration {
    fn eq(&self, other: &Duration) -> (equal: bool) {
        proof {
            use_type_invariant(self);
            use_type_invariant(other);
        }
        self.secs == other.secs && self.nanos == other.nanos
    }
}

impl vstd::std_specs::cmp::PartialEqSpecImpl for Duration {
    open spec fn obeys_eq_spec() -> bool {
        true
    }

    open spec fn eq_spec(&self, other: &Duration) -> bool {
        self@ == other@
    }
}

impl Default for Duration {
    fn default() -> (d: Self)
        ensures
            d@ == 0,
    {
        Duration::zero()
    }
}

impl Duration {
    #[verifier::type_invariant]
    spec fn normalized(self) -> bool {
        self.nanos < NANOS_PER_SEC
    }

    /// The empty span.
    pub fn zero() -> (d: Self)
        ensures
            d@ == 0,
    {
        Duration { secs: 0, nanos: 0 }
    }

    /// `secs` seconds and `nanos` nanoseconds; nanoseconds beyond a second
    /// carry over into the seconds.
    pub fn new(secs: u64, nanos: u32) -> (d: Self)
        requires
            secs + nanos / NANOS_PER_SEC <= u64::MAX,
        ensures
            d@ == secs * NANOS_PER_SEC + nanos,
    {
        Duration { secs: secs + (nanos / NANOS_PER_SEC) as u64, nanos: nanos % NANOS_PER_SEC }
    }

    /// A span of whole seconds.
    pub fn from_secs(secs: u64) -> (d: Self)
        ensures
            d@ == secs * NANOS_PER_SEC,
    {
        Duration { secs, nanos: 0 }
    }

    /// A span of whole milliseconds.
    pub fn from_millis(millis: u64) -> (d: Self)
        ensures
            d@ == millis * NANOS_PER_MILLI,
    {
        Duration {
            secs: millis / MILLIS_PER_SEC,
            nanos: (millis % MILLIS_PER_SEC) as u32 * NANOS_PER_MILLI,
        }
    }

    /// Whole seconds in the span.
    pub fn as_secs(&self) -> (secs: u64)
        ensures
            secs as nat == self@ / (NANOS_PER_SEC as nat),
    {
        proof {
            use_type_invariant(self);
        }
        self.secs
    }

    /// The fraction of a second left over by [`Duration::as_secs`].
    pub fn subsec_nanos(&self) -> (nanos: u32)
        ensures
            nanos as nat == self@ % (NANOS_PER_SEC as nat),
    {
        proof {
            use_type_invariant(self);
        }
        self.nanos
    }
}

/// A wall-clock reading, of the range that 64-bit Unix time has.
///
/// Its view counts nanoseconds since the Unix epoch, negative before it.
#[derive(Clone, Copy, Debug, Eq)]
pub struct SystemTime {
    secs: i64,
    nanos: u32,
}

impl View for SystemTime {
    type V = int;

    closed spec fn view(&self) -> int {
        self.secs * NANOS_PER_SEC + self.nanos
    }
}

/// Readings are equal when they are of the same moment.
impl PartialEq for SystemTime {
    fn eq(&self, other: &SystemTime) -> (equal: bool) {
        proof {
            use_type_invariant(self);
            use_type_invariant(other);
        }
        self.secs == other.secs && self.nanos == other.nanos
    }
}

impl vstd::std_specs::cmp::PartialEqSpecImpl for SystemTime {
    open spec fn obeys_eq_spec() -> bool {
        true
    }

    open spec fn eq_spec(&self, other: &SystemTime) -> bool {
        self@ == other@
    }
}

/// Reads the wall clock through `std::time::SystemTime::now`, as an offset from
/// the Unix epoch in seconds and nanoseconds: `Ok` after the epoch, `Err`
/// before it, as `std::time::SystemTime::duration_since` reports it.
///
/// Claimed is only that the nanoseconds are a fraction of a second, as
/// `std::time::Duration::subsec_nanos` documents. What time it is depends on
/// the machine, so nothing is said of it.
#[verifier::external_body]
fn read_wall_clock() -> (offset: Result<(u64, u32), (u64, u32)>)
    ensures
        match offset {
            Ok(after) => after.1 < NANOS_PER_SEC,
            Err(before) => before.1 < NANOS_PER_SEC,
        },
{
    match std::time::SystemTime::now().duration_since(std::time::UNIX_EPOCH) {
        Ok(after) => Ok((after.as_secs(), after.subsec_nanos())),
        Err(err) => Err((err.duration().as_secs(), err.duration().subsec_nanos())),
    }
}

/// The offset is one that a reading of the wall clock came back with.
pub closed spec fn wall_clock_gave(offset: Result<(u64, u32), (u64, u32)>) -> bool {
    call_ensures(read_wall_clock, (), offset)
}

/// What the wall clock gave was read from it.
proof fn law_clock_is_read(offset: Result<(u64, u32), (u64, u32)>)
    ensures
        wall_clock_gave(offset) <==> call_ensures(read_wall_clock, (), offset),
{
}

impl SystemTime {
    #[verifier::type_invariant]
    spec fn normalized(self) -> bool {
        self.nanos < NANOS_PER_SEC
    }

    /// The earliest reading there is.
    pub open spec fn earliest() -> int {
        i64::MIN * NANOS_PER_SEC
    }

    /// The latest reading there is.
    pub open spec fn latest() -> int {
        i64::MAX * NANOS_PER_SEC + NANOS_PER_SEC - 1
    }

    /// The reading that lies `offset` after the Unix epoch (`Ok`) or before it
    /// (`Err`). One that is out of range is held at the end of the range.
    pub fn from_epoch_offset(offset: Result<Duration, Duration>) -> (time: Self)
        ensures
            time@ == match offset {
                Ok(after) => if after@ <= SystemTime::latest() {
                    after@ as int
                } else {
                    SystemTime::latest()
                },
                Err(before) => if -before@ >= SystemTime::earliest() {
                    -before@
                } else {
                    SystemTime::earliest()
                },
            },
    {
        match offset {
            Ok(after) => {
                proof {
                    use_type_invariant(&after);
                }
                if after.secs <= i64::MAX as u64 {
                    SystemTime { secs: after.secs as i64, nanos: after.nanos }
                } else {
                    SystemTime { secs: i64::MAX, nanos: NANOS_PER_SEC - 1 }
                }
            },
            Err(before) => {
                proof {
                    use_type_invariant(&before);
                }
                if before.secs > i64::MAX as u64 {
                    SystemTime { secs: i64::MIN, nanos: 0 }
                } else if before.nanos == 0 {
                    SystemTime { secs: -(before.secs as i64), nanos: 0 }
                } else {
                    SystemTime {
                        secs: -(before.secs as i64) - 1,
                        nanos: NANOS_PER_SEC - before.nanos,
                    }
                }
            },
        }
    }

    /// The current reading of the machine's wall clock.
    ///
    /// Any reading may come back, so all that is known of it is the range;
    /// [`SystemTime::from_clock`] says which time stands for which reading.
    pub fn now() -> (time: Self)
        ensures
            SystemTime::earliest() <= time@ <= SystemTime::latest(),
            time.is_clock_reading(),
    {
        let offset = read_wall_clock();
        assert(wall_clock_gave(offset));
        SystemTime::from_clock(offset)
    }

    /// The time is one that the machine's wall clock gave.
    pub open spec fn is_clock_reading(self) -> bool {
        exists|offset: Result<(u64, u32), (u64, u32)>| #[trigger]
            wall_clock_gave(offset) && self@ == match offset {
                Ok(after) => SystemTime::nearest(after.0 * NANOS_PER_SEC + after.1),
                Err(before) => SystemTime::nearest(-(before.0 * NANOS_PER_SEC + before.1)),
            }
    }

    /// The reading in range that is nearest to `nanos` nanoseconds since the
    /// Unix epoch.
    pub open spec fn nearest(nanos: int) -> int {
        if nanos < SystemTime::earliest() {
            SystemTime::earliest()
        } else if nanos > SystemTime::latest() {
            SystemTime::latest()
        } else {
            nanos
        }
    }

    /// What a clock reads that stands at the given seconds and nanoseconds after
    /// the Unix epoch (`Ok`) or before it (`Err`).
    pub fn from_clock(offset: Result<(u64, u32), (u64, u32)>) -> (time: Self)
        requires
            match offset {
                Ok(after) => after.1 < NANOS_PER_SEC,
                Err(before) => before.1 < NANOS_PER_SEC,
            },
        ensures
            time@ == match offset {
                Ok(after) => SystemTime::nearest(after.0 * NANOS_PER_SEC + after.1),
                Err(before) => SystemTime::nearest(-(before.0 * NANOS_PER_SEC + before.1)),
            },
    {
        match offset {
            Ok((secs, nanos)) => SystemTime::from_epoch_offset(Ok(Duration::new(secs, nanos))),
            Err((secs, nanos)) => SystemTime::from_epoch_offset(Err(Duration::new(secs, nanos))),
        }
    }

    /// The span from `earlier` to this reading, or `None` when `earlier` is the
    /// later of the two.
    pub fn duration_since(&self, earlier: SystemTime) -> (span: Option<Duration>)
        ensures
            span is Some <==> earlier@ <= self@,
            span matches Some(d) ==> d@ == self@ - earlier@,
    {
        proof {
            use_type_invariant(self);
            use_type_invariant(&earlier);
        }
        let secs: i128 = self.secs as i128 - earlier.secs as i128;
        if self.nanos >= earlier.nanos {
            if secs < 0 {
                None
            } else {
                Some(Duration { secs: secs as u64, nanos: self.nanos - earlier.nanos })
            }
        } else if secs < 1 {
            None
        } else {
            Some(
                Duration {
                    secs: (secs - 1) as u64,
                    nanos: self.nanos + NANOS_PER_SEC - earlier.nanos,
                },
            )
        }
    }
}

/// A database timestamp, at PostgreSQL's resolution of one microsecond.
///
/// It is a date and time without a zone, counted from midnight of
/// 1970-01-01, which is also the default.
#[derive(Clone, Copy, Debug, PartialEq, Eq, Structural)]
pub struct Timestamp {
    pub micros: i64,
}

impl Default for Timestamp {
    fn default() -> (t: Self)
        ensures
            t.micros == 0,
    {
        Timestamp { micros: 0 }
    }
}

impl Timestamp {
    /// Whole milliseconds from `earlier` to this timestamp, zero when `earlier`
    /// is the later of the two.
    pub open spec fn millis_since_spec(self, earlier: Timestamp) -> int {
        if earlier.micros <= self.micros {
            (self.micros - earlier.micros) / (MICROS_PER_MILLI as int)
        } else {
            0
        }
    }

    /// Whole milliseconds from `earlier` to this timestamp, zero when `earlier`
    /// is the later of the two.
    pub fn millis_since(&self, earlier: Timestamp) -> (millis: u64)
        ensures
            millis == self.millis_since_spec(earlier),
    {
        if earlier.micros <= self.micros {
            ((self.micros as i128 - earlier.micros as i128) / MICROS_PER_MILLI) as u64
        } else {
            0
        }
    }
}

/// A time that the wall clock gave is where its offset from the epoch puts it,
/// for every offset in the range of 64-bit Unix time.
pub proof fn law_readings_are_exact(time: SystemTime)
    requires
        time.is_clock_reading(),
    ensures
        exists|offset: Result<(u64, u32), (u64, u32)>| #[trigger]
            wall_clock_gave(offset) && match offset {
                Ok(after) => after.0 <= i64::MAX && after.1 < 1_000_000_000 ==> time@ == after.0
                    * 1_000_000_000 + after.1,
                Err(before) => before.0 <= i64::MAX && before.1 < 1_000_000_000 ==> time@ == -(
                before.0 * 1_000_000_000 + before.1),
            },
{
}

/// Times in the range of 64-bit Unix time stand for themselves, and the others
/// for the end of the range that they lie beyond.
pub proof fn law_range_of_readings(nanos: int)
    ensures
        SystemTime::earliest() == i64::MIN * 1_000_000_000,
        SystemTime::latest() == i64::MAX * 1_000_000_000 + 999_999_999,
        SystemTime::earliest() <= nanos <= SystemTime::latest() ==> SystemTime::nearest(nanos)
            == nanos,
        nanos < SystemTime::earliest() ==> SystemTime::nearest(nanos) == SystemTime::earliest(),
        nanos > SystemTime::latest() ==> SystemTime::nearest(nanos) == SystemTime::latest(),
{
}

/// Milliseconds between timestamps are the whole thousands of the microseconds
/// between them, and none when the other one is the later.
pub proof fn law_millis_between_timestamps(later: Timestamp, earlier: Timestamp)
    ensures
        earlier.micros <= later.micros ==> 0 <= (later.micros - earlier.micros) - 1000
            * later.millis_since_spec(earlier) < 1000,
        later.micros <= earlier.micros ==> later.millis_since_spec(earlier) == 0,
{
}

} // verus!
