//! Positions in the write-ahead log, as one check of a database found them.

use crate::data_row::{bigint_at, bool_at, lsn_at, timestamp_at, Column, ColumnType, DataRow};
use crate::time::{Duration, SystemTime, Timestamp, NANOS_PER_MILLI, NANOS_PER_SEC};
use vstd::prelude::*;
use vstd::std_specs::convert::FromSpecImpl;

verus! {

/// Longest estimate that [`LsnStats::eta_to`] gives: one day, in seconds.
pub const MAX_ETA_SECONDS: i64 = 86_400;

/// A log sequence number.
#[derive(Clone, Copy, Debug, PartialEq, Eq, Structural)]
pub struct Lsn {
    /// Bytes from the start of the write-ahead log.
    pub lsn: i64,
}

impl Default for Lsn {
    fn default() -> (lsn: Self)
        ensures
            lsn.lsn == 0,
    {
        Lsn { lsn: 0 }
    }
}

/// How far a replica trails its primary.
#[derive(Clone, Copy, Debug)]
pub struct ReplicaLag {
    /// Write-ahead log the replica has yet to replay; negative when it is ahead.
    pub bytes: i64,
    /// Time between the last transactions of the two.
    pub duration: Duration,
}

/// What a database answered when asked for its log position.
#[derive(Clone, Copy, Debug)]
pub struct StatsLsnStats {
    /// The database is in recovery, that is, a replica.
    pub replica: bool,
    /// Position written (primary) or replayed (replica).
    pub lsn: Lsn,
    /// The same position, as an offset from zero.
    pub offset_bytes: i64,
    /// Time of the last transaction it replayed (replica), or of the answer
    /// (primary).
    pub timestamp: Timestamp,
    /// When the answer was received here.
    pub fetched: SystemTime,
    /// The database is Aurora, which exposes no log positions.
    pub aurora: bool,
}

impl StatsLsnStats {
    /// Stats contain real data: Aurora's always do, others' once a position is
    /// known.
    pub open spec fn is_valid(self) -> bool {
        self.aurora || self.lsn.lsn > 0
    }

    /// Stats contain real data.
    pub fn valid(&self) -> (valid: bool)
        ensures
            valid == self.is_valid(),
    {
        self.aurora || self.lsn.lsn > 0
    }
}

/// LSN information.
#[derive(Clone, Copy, Debug)]
pub struct LsnStats {
    pub inner: StatsLsnStats,
    /// Replica replication lag in whole seconds: `now() -
    /// pg_last_xact_replay_timestamp()`, computed by the database (one clock, no
    /// skew or timezone handling). `0` on the primary, on Aurora, or when the
    /// replica has not replayed any transaction yet.
    pub replay_lag_seconds: i64,
}

impl std::ops::Deref for LsnStats {
    type Target = StatsLsnStats;

    fn deref(&self) -> (inner: &StatsLsnStats)
        ensures
            *inner == self.inner,
    {
        &self.inner
    }
}

impl std::ops::DerefMut for LsnStats {
    fn deref_mut(&mut self) -> (inner: &mut StatsLsnStats)
        ensures
            *inner == old(self).inner,
            final(self).inner == *final(inner),
            final(self).replay_lag_seconds == old(self).replay_lag_seconds,
    {
        &mut self.inner
    }
}

impl From<StatsLsnStats> for LsnStats {
    fn from(value: StatsLsnStats) -> (stats: Self) {
        LsnStats { inner: value, replay_lag_seconds: 0 }
    }
}

impl FromSpecImpl<StatsLsnStats> for LsnStats {
    open spec fn obeys_from_spec() -> bool {
        true
    }

    open spec fn from_spec(value: StatsLsnStats) -> Self {
        LsnStats::without_lag(value)
    }
}

impl Default for LsnStats {
    /// Stats before any answer: no position, no replication lag, no real data.
    /// Nothing is promised of the role and the time of the fetch until a database
    /// has answered.
    fn default() -> (stats: Self)
        ensures
            stats.replay_lag_seconds == 0,
            !stats.inner.is_valid(),
            !stats.inner.aurora,
            stats.inner.lsn.lsn == 0,
            stats.inner.offset_bytes == 0,
            stats.inner.timestamp.micros == 0,
    {
        LsnStats::from(
            StatsLsnStats {
                replica: false,
                lsn: Lsn::default(),
                offset_bytes: 0,
                timestamp: Timestamp::default(),
                fetched: SystemTime::now(),
                aurora: false,
            },
        )
    }
}

/// `value`, moved to the nearest end of `low..=high` when outside of it.
pub open spec fn clamp_spec(value: int, low: int, high: int) -> int {
    if value < low {
        low
    } else if value > high {
        high
    } else {
        value
    }
}

impl LsnStats {
    /// The stats of a database that reported no replication lag.
    pub open spec fn without_lag(value: StatsLsnStats) -> Self {
        LsnStats { inner: value, replay_lag_seconds: 0 }
    }

    /// Seconds until the replica replays up to `min_lsn`: nothing is known from
    /// invalid stats, no time is left once the floor is reached, and otherwise
    /// it is the replication lag, held between zero and a day.
    pub open spec fn eta_seconds(self, min_lsn: int) -> Option<int> {
        if !self.inner.is_valid() {
            None
        } else if self.inner.lsn.lsn >= min_lsn {
            Some(0)
        } else {
            Some(clamp_spec(self.replay_lag_seconds as int, 0, MAX_ETA_SECONDS as int))
        }
    }

    /// Nanoseconds from the moment the stats were fetched to `now`, zero when
    /// the clock was set back since.
    pub open spec fn age_nanos(self, now: int) -> int {
        if self.inner.fetched@ <= now {
            now - self.inner.fetched@
        } else {
            0
        }
    }

    /// Bytes of write-ahead log between this replica and a primary.
    pub open spec fn lag_bytes(self, primary: LsnStats) -> int {
        primary.inner.lsn.lsn - self.inner.lsn.lsn
    }

    /// Time by which this replica trails a primary, in nanoseconds: whole
    /// milliseconds, and zero when it is not behind.
    pub open spec fn lag_nanos(self, primary: LsnStats) -> int {
        primary.inner.timestamp.millis_since_spec(self.inner.timestamp) * NANOS_PER_MILLI
    }

    /// How old the stats are.
    pub fn lsn_age(&self, now: SystemTime) -> (age: Duration)
        ensures
            age@ == self.age_nanos(now@),
    {
        match now.duration_since(self.inner.fetched) {
            Some(age) => age,
            None => Duration::default(),
        }
    }

    /// Stats contain real data.
    pub fn valid(&self) -> (valid: bool)
        ensures
            valid == self.inner.is_valid(),
    {
        self.inner.valid()
    }

    /// Calculate replica lag.
    pub fn replica_lag(&self, primary: &LsnStats) -> (lag: ReplicaLag)
        requires
            i64::MIN <= self.lag_bytes(*primary) <= i64::MAX,
        ensures
            lag.bytes == self.lag_bytes(*primary),
            lag.duration@ == self.lag_nanos(*primary),
    {
        let bytes: i64 = primary.inner.lsn.lsn - self.inner.lsn.lsn;
        let lag_ms: u64 = primary.inner.timestamp.millis_since(self.inner.timestamp);

        ReplicaLag { bytes, duration: Duration::from_millis(lag_ms) }
    }

    /// Estimated time for this replica to replay up to `min_lsn`: its current
    /// replication lag in time, as the database measured it. Used to size a
    /// client's read-your-writes defer to the real deficit. Since `min_lsn`
    /// committed after the replica's current frontier, the true time to reach
    /// it is at most this lag, so the estimate errs on the long side. Returns
    /// `None` when stats are invalid, zero once the replica has reached the
    /// floor.
    pub fn eta_to(&self, min_lsn: i64) -> (eta: Option<Duration>)
        ensures
            match eta {
                None => self.eta_seconds(min_lsn as int) is None,
                Some(d) => self.eta_seconds(min_lsn as int) matches Some(secs) && d@ == secs
                    * NANOS_PER_SEC,
            },
    {
        if !self.valid() {
            return None;
        }
        if self.inner.lsn.lsn >= min_lsn {
            return Some(Duration::zero());
        }
        // A pathological lag is cut off at a day; a negative one (clock wobble)
        // floors at zero.
        let secs: u64 = if self.replay_lag_seconds < 0 {
            0
        } else if self.replay_lag_seconds > MAX_ETA_SECONDS {
            MAX_ETA_SECONDS as u64
        } else {
            self.replay_lag_seconds as u64
        };
        Some(Duration::from_secs(secs))
    }
}

/// Columns that a log-position query answers with.
pub const LSN_COLUMNS: usize = 5;

/// The type that the column at `index` of a log-position query is decoded to,
/// or `None` past the last one.
pub open spec fn lsn_column_type_spec(index: int) -> Option<ColumnType> {
    if index == 0 {
        Some(ColumnType::Bool)
    } else if index == 1 {
        Some(ColumnType::Lsn)
    } else if index == 2 || index == 4 {
        Some(ColumnType::Bigint)
    } else if index == 3 {
        Some(ColumnType::Timestamp)
    } else {
        None
    }
}

/// The type that the column at `index` of a log-position query is decoded to,
/// or `None` past the last one.
pub fn lsn_column_type(index: usize) -> (column_type: Option<ColumnType>)
    ensures
        column_type == lsn_column_type_spec(index as int),
        column_type is Some <==> index < LSN_COLUMNS,
{
    match index {
        0 => Some(ColumnType::Bool),
        1 => Some(ColumnType::Lsn),
        2 => Some(ColumnType::Bigint),
        3 => Some(ColumnType::Timestamp),
        4 => Some(ColumnType::Bigint),
        _ => None,
    }
}

/// `value`, or `fallback` in its absence.
pub open spec fn or_else<T>(value: Option<T>, fallback: T) -> T {
    match value {
        Some(value) => value,
        None => fallback,
    }
}

impl LsnStats {
    /// The stats that an answered row stands for: each column in its field, and
    /// false or zero where a column holds nothing.
    pub open spec fn of_row(row: Seq<Option<Column>>, aurora: bool, fetched: SystemTime) -> Self {
        LsnStats {
            inner: StatsLsnStats {
                replica: or_else(bool_at(row, 0), false),
                lsn: or_else(lsn_at(row, 1), (Lsn { lsn: 0 })),
                offset_bytes: or_else(bigint_at(row, 2), 0),
                timestamp: or_else(timestamp_at(row, 3), (Timestamp { micros: 0 })),
                fetched,
                aurora,
            },
            replay_lag_seconds: or_else(bigint_at(row, 4), 0),
        }
    }

    /// Stats from a row that was received at `fetched`.
    pub fn from_row_at(row: &DataRow, aurora: bool, fetched: SystemTime) -> (stats: Self)
        ensures
            stats == LsnStats::of_row(row@, aurora, fetched),
    {
        let inner = StatsLsnStats {
            replica: row.get_bool(0).unwrap_or(false),
            lsn: row.get_lsn(1).unwrap_or(Lsn::default()),
            offset_bytes: row.get_bigint(2).unwrap_or(0),
            timestamp: row.get_timestamp(3).unwrap_or(Timestamp::default()),
            fetched,
            aurora,
        };
        let mut stats = LsnStats::from(inner);
        stats.replay_lag_seconds = row.get_bigint(4).unwrap_or(0);
        stats
    }

    /// Stats from a row that was just received: [`LsnStats::from_row_at`], at
    /// whatever the wall clock reads now.
    pub fn from_row(row: DataRow, aurora: bool) -> (stats: Self)
        ensures
            stats == LsnStats::of_row(row@, aurora, stats.inner.fetched),
            call_ensures(SystemTime::now, (), stats.inner.fetched),
            stats.inner.fetched.is_clock_reading(),
    {
        LsnStats::from_row_at(&row, aurora, SystemTime::now())
    }
}

/// Aurora's stats contain real data whatever the position, even a zero one;
/// those of another database only with a position past zero.
pub proof fn law_validity(stats: LsnStats)
    ensures
        stats.inner.aurora ==> stats.inner.is_valid(),
        !stats.inner.aurora && stats.inner.lsn.lsn == 0 ==> !stats.inner.is_valid(),
        !stats.inner.aurora ==> (stats.inner.is_valid() <==> stats.inner.lsn.lsn > 0),
{
}

/// An estimate is missing exactly when the stats are invalid, zero once the
/// floor is reached, and never negative, longer than a day, or longer than the
/// replication lag.
pub proof fn law_eta_bounds(stats: LsnStats, min_lsn: int)
    ensures
        stats.eta_seconds(min_lsn) is None <==> !stats.inner.is_valid(),
        stats.inner.is_valid() && stats.inner.lsn.lsn >= min_lsn ==> stats.eta_seconds(min_lsn)
            == Some(0int),
        stats.eta_seconds(min_lsn) matches Some(secs) ==> 0 <= secs <= MAX_ETA_SECONDS && (secs
            <= stats.replay_lag_seconds || secs == 0),
{
}

/// A higher floor is never reached sooner.
pub proof fn law_eta_grows_with_floor(stats: LsnStats, low: int, high: int)
    requires
        low <= high,
        stats.inner.is_valid(),
    ensures
        stats.eta_seconds(low)->0 <= stats.eta_seconds(high)->0,
{
}

/// A replica that has replayed further and lags no more does not take longer.
pub proof fn law_eta_shrinks_with_progress(before: LsnStats, after: LsnStats, min_lsn: int)
    requires
        before.inner.is_valid(),
        after.inner.is_valid(),
        before.inner.lsn.lsn <= after.inner.lsn.lsn,
        after.replay_lag_seconds <= before.replay_lag_seconds,
    ensures
        after.eta_seconds(min_lsn)->0 <= before.eta_seconds(min_lsn)->0,
{
}

/// Stats that carry no replication lag give no wait.
pub proof fn law_no_lag_no_wait(value: StatsLsnStats, min_lsn: int)
    ensures
        LsnStats::without_lag(value).inner == value,
        LsnStats::without_lag(value).eta_seconds(min_lsn) == if value.is_valid() {
            Some(0int)
        } else {
            None
        },
{
}

/// A database does not trail itself.
pub proof fn law_no_lag_to_itself(stats: LsnStats)
    ensures
        stats.lag_bytes(stats) == 0,
        stats.lag_nanos(stats) == 0,
{
}

/// Seen from the other side, lag in bytes changes its sign; lag in time is never
/// negative, and on one side it is zero.
pub proof fn law_lag_both_ways(a: LsnStats, b: LsnStats)
    ensures
        a.lag_bytes(b) == -b.lag_bytes(a),
        a.lag_nanos(b) >= 0,
        a.lag_nanos(b) == 0 || b.lag_nanos(a) == 0,
{
}

/// A replica whose last transaction is older trails the same primary by at
/// least as much time.
pub proof fn law_lag_grows_backwards(older: LsnStats, newer: LsnStats, primary: LsnStats)
    requires
        older.inner.timestamp.micros <= newer.inner.timestamp.micros,
    ensures
        newer.lag_nanos(primary) <= older.lag_nanos(primary),
{
}

/// Stats age with the clock: by as much as it advances after they were fetched,
/// and not at all while it reads an earlier time.
pub proof fn law_age_follows_clock(stats: LsnStats, now: int, later: int)
    requires
        now <= later,
    ensures
        0 <= stats.age_nanos(now) <= stats.age_nanos(later),
        stats.inner.fetched@ <= now ==> stats.age_nanos(later) == stats.age_nanos(now) + (later
            - now),
        now <= stats.inner.fetched@ ==> stats.age_nanos(now) == 0,
{
}

/// A row with the five columns that the query asks for is read in full; further
/// columns change nothing.
pub proof fn law_full_row_is_read(
    replica: bool,
    lsn: Lsn,
    offset_bytes: i64,
    timestamp: Timestamp,
    replay_lag_seconds: i64,
    rest: Seq<Option<Column>>,
    aurora: bool,
    fetched: SystemTime,
)
    ensures
        LsnStats::of_row(
            seq![
                Some(Column::Bool(replica)),
                Some(Column::Lsn(lsn)),
                Some(Column::Bigint(offset_bytes)),
                Some(Column::Timestamp(timestamp)),
                Some(Column::Bigint(replay_lag_seconds)),
            ] + rest,
            aurora,
            fetched,
        ) == (LsnStats {
            inner: StatsLsnStats { replica, lsn, offset_bytes, timestamp, fetched, aurora },
            replay_lag_seconds,
        }),
{
}

/// Stats from Aurora are valid whatever the row holds; those from a row without
/// a position, of another database, are not.
pub proof fn law_row_validity(row: Seq<Option<Column>>, fetched: SystemTime)
    ensures
        LsnStats::of_row(row, true, fetched).inner.is_valid(),
        lsn_at(row, 1) is None ==> !LsnStats::of_row(row, false, fetched).inner.is_valid(),
{
}

/// Behind the floor the estimate is the replication lag itself, from zero to a
/// day, a day when the lag is longer and zero when it is negative; so a replica
/// that lags is said to have reached a floor only if it has. Invalid stats give
/// no estimate.
pub proof fn law_eta_behind_floor_is_lag(stats: LsnStats, min_lsn: int)
    ensures
        (stats.inner.aurora || stats.inner.lsn.lsn > 0) && stats.inner.lsn.lsn < min_lsn ==> {
            &&& 0 <= stats.replay_lag_seconds <= 86_400 ==> stats.eta_seconds(min_lsn) == Some(
                stats.replay_lag_seconds as int,
            )
            &&& stats.replay_lag_seconds > 86_400 ==> stats.eta_seconds(min_lsn) == Some(86_400int)
            &&& stats.replay_lag_seconds < 0 ==> stats.eta_seconds(min_lsn) == Some(0int)
        },
        stats.replay_lag_seconds > 0 && stats.eta_seconds(min_lsn) == Some(0int)
            ==> stats.inner.lsn.lsn >= min_lsn,
        (stats.inner.aurora || stats.inner.lsn.lsn > 0) && stats.inner.lsn.lsn >= min_lsn
            ==> stats.eta_seconds(min_lsn) == Some(0int),
        !stats.inner.aurora && stats.inner.lsn.lsn <= 0 ==> stats.eta_seconds(min_lsn) is None,
{
}

/// Only where the floor lies from the position counts: moving both alike leaves
/// the estimate as it was.
pub proof fn law_eta_is_relative(a: LsnStats, b: LsnStats, floor_a: int, floor_b: int)
    requires
        a.inner.lsn.lsn > 0,
        b.inner.lsn.lsn > 0,
        floor_a - a.inner.lsn.lsn == floor_b - b.inner.lsn.lsn,
        a.replay_lag_seconds == b.replay_lag_seconds,
    ensures
        a.eta_seconds(floor_a) == b.eta_seconds(floor_b),
{
}

/// The lag of a replica is the difference of the two positions, and, unless its
/// last transaction is the later one, the whole milliseconds that the two last
/// transactions are apart.
pub proof fn law_lag_is_difference(replica: LsnStats, primary: LsnStats)
    ensures
        replica.lag_bytes(primary) + replica.inner.lsn.lsn == primary.inner.lsn.lsn,
        replica.inner.timestamp.micros <= primary.inner.timestamp.micros ==> replica.lag_nanos(
            primary,
        ) == ((primary.inner.timestamp.micros - replica.inner.timestamp.micros) / 1000) * 1_000_000,
        replica.inner.timestamp.micros > primary.inner.timestamp.micros ==> replica.lag_nanos(
            primary,
        ) == 0,
{
}

/// Lag does not depend on the date: moving both last transactions alike leaves it
/// as it was.
pub proof fn law_lag_is_relative(
    replica: LsnStats,
    primary: LsnStats,
    moved_replica: LsnStats,
    moved_primary: LsnStats,
)
    requires
        moved_primary.inner.timestamp.micros - primary.inner.timestamp.micros
            == moved_replica.inner.timestamp.micros - replica.inner.timestamp.micros,
    ensures
        moved_replica.lag_nanos(moved_primary) == replica.lag_nanos(primary),
{
}

/// A replica that falls back by so many more milliseconds lags by exactly as many
/// more.
pub proof fn law_lag_grows_by_the_fall(
    replica: LsnStats,
    fallen: LsnStats,
    primary: LsnStats,
    millis: int,
)
    requires
        millis >= 0,
        replica.inner.timestamp.micros <= primary.inner.timestamp.micros,
        fallen.inner.timestamp.micros == replica.inner.timestamp.micros - millis * 1000,
    ensures
        fallen.lag_nanos(primary) == replica.lag_nanos(primary) + millis * 1_000_000,
{
}

/// The age of stats is the time between the fetch and now.
pub proof fn law_age_is_difference(stats: LsnStats, now: int)
    ensures
        stats.inner.fetched@ <= now ==> stats.age_nanos(now) + stats.inner.fetched@ == now,
        stats.inner.fetched@ > now ==> stats.age_nanos(now) == 0,
{
}

/// Without lag, the replication lag is zero and all else is as it was.
pub proof fn law_without_lag_keeps_the_rest(value: StatsLsnStats)
    ensures
        LsnStats::without_lag(value).replay_lag_seconds == 0,
        LsnStats::without_lag(value).inner == value,
{
}

/// Each field comes from its own column and from no other: it is the column's
/// value where that is of the right type, and false or zero where it is not, or
/// is missing. The flag and the time of the fetch are those that were given.
pub proof fn law_fields_come_from_their_columns(
    row: Seq<Option<Column>>,
    aurora: bool,
    fetched: SystemTime,
)
    ensures
        LsnStats::of_row(row, aurora, fetched).inner.replica <==> row.len() > 0 && row[0] == Some(
            Column::Bool(true),
        ),
        forall|lsn: Lsn|
            row.len() > 1 && row[1] == Some(Column::Lsn(lsn)) ==> LsnStats::of_row(
                row,
                aurora,
                fetched,
            ).inner.lsn == lsn,
        row.len() <= 1 || !(row[1] matches Some(Column::Lsn(_))) ==> LsnStats::of_row(
            row,
            aurora,
            fetched,
        ).inner.lsn.lsn == 0,
        forall|offset: i64|
            row.len() > 2 && row[2] == Some(Column::Bigint(offset)) ==> LsnStats::of_row(
                row,
                aurora,
                fetched,
            ).inner.offset_bytes == offset,
        row.len() <= 2 || !(row[2] matches Some(Column::Bigint(_))) ==> LsnStats::of_row(
            row,
            aurora,
            fetched,
        ).inner.offset_bytes == 0,
        forall|timestamp: Timestamp|
            row.len() > 3 && row[3] == Some(Column::Timestamp(timestamp)) ==> LsnStats::of_row(
                row,
                aurora,
                fetched,
            ).inner.timestamp == timestamp,
        row.len() <= 3 || !(row[3] matches Some(Column::Timestamp(_))) ==> LsnStats::of_row(
            row,
            aurora,
            fetched,
        ).inner.timestamp.micros == 0,
        forall|lag: i64|
            row.len() > 4 && row[4] == Some(Column::Bigint(lag)) ==> LsnStats::of_row(
                row,
                aurora,
                fetched,
            ).replay_lag_seconds == lag,
        row.len() <= 4 || !(row[4] matches Some(Column::Bigint(_))) ==> LsnStats::of_row(
            row,
            aurora,
            fetched,
        ).replay_lag_seconds == 0,
        LsnStats::of_row(row, aurora, fetched).inner.aurora == aurora,
        LsnStats::of_row(row, aurora, fetched).inner.fetched == fetched,
{
}

} // verus!
