use pgdog::data_row::{Column, ColumnType, DataRow};
use pgdog::lsn_stats::{lsn_column_type, Lsn, LsnStats, StatsLsnStats, LSN_COLUMNS};
use pgdog::time::{Duration, SystemTime, Timestamp};

fn stats_at(lsn: i64, micros: i64) -> LsnStats {
    StatsLsnStats {
        replica: true,
        lsn: Lsn { lsn },
        offset_bytes: lsn,
        timestamp: Timestamp { micros },
        fetched: SystemTime::now(),
        aurora: false,
    }
    .into()
}

fn full_row() -> DataRow {
    DataRow {
        columns: vec![
            Some(Column::Bool(true)),
            Some(Column::Lsn(Lsn { lsn: 1000 })),
            Some(Column::Bigint(1001)),
            Some(Column::Timestamp(Timestamp { micros: 1002 })),
            Some(Column::Bigint(7)),
        ],
    }
}

#[test]
fn test_aurora_stats_valid_with_zero_lsn() {
    let stats: LsnStats = StatsLsnStats {
        replica: true,
        lsn: Lsn::default(),
        offset_bytes: 0,
        timestamp: Timestamp::default(),
        fetched: SystemTime::now(),
        aurora: true,
    }
    .into();

    assert!(
        stats.valid(),
        "Aurora stats should be valid even with zero LSN"
    );
}

#[test]
fn test_non_aurora_stats_invalid_with_zero_lsn() {
    let stats: LsnStats = StatsLsnStats {
        replica: true,
        lsn: Lsn::default(),
        offset_bytes: 0,
        timestamp: Timestamp::default(),
        fetched: SystemTime::now(),
        aurora: false,
    }
    .into();

    assert!(
        !stats.valid(),
        "Non-Aurora stats should be invalid with zero LSN"
    );
}

#[test]
fn test_eta_to_uses_replay_lag() {
    let mut lsn = Lsn::default();
    lsn.lsn = 1000;
    let mut stats: LsnStats = StatsLsnStats {
        replica: true,
        lsn,
        offset_bytes: 1000,
        timestamp: Timestamp::default(),
        fetched: SystemTime::now(),
        aurora: false,
    }
    .into();

    // Behind the floor: eta is the replica's replication lag in time.
    stats.replay_lag_seconds = 7;
    assert_eq!(stats.eta_to(1500).map(|d| d.as_secs()), Some(7));

    // Already at/past the floor -> zero, regardless of lag.
    assert_eq!(stats.eta_to(1000), Some(Duration::zero()));
    assert_eq!(stats.eta_to(500), Some(Duration::zero()));

    // Pathological lag is clamped to a day, not overflowed.
    stats.replay_lag_seconds = i64::MAX;
    assert!(stats.eta_to(1500).unwrap().as_secs() <= 86_400);

    // Negative lag (clock wobble) floors at zero.
    stats.replay_lag_seconds = -5;
    assert_eq!(stats.eta_to(1500), Some(Duration::zero()));
}

#[test]
fn eta_of_invalid_stats_is_unknown() {
    let mut stats = stats_at(0, 0);
    stats.replay_lag_seconds = 7;
    assert_eq!(stats.eta_to(1500), None);
    assert_eq!(stats.eta_to(-1), None);
}

#[test]
fn eta_is_cut_off_at_exactly_a_day() {
    let mut stats = stats_at(1000, 0);
    for (lag, secs) in [
        (86_399, 86_399),
        (86_400, 86_400),
        (86_401, 86_400),
        (i64::MAX, 86_400),
        (i64::MIN, 0),
    ] {
        stats.replay_lag_seconds = lag;
        assert_eq!(stats.eta_to(1001), Some(Duration::from_secs(secs)));
    }
}

#[test]
fn eta_grows_with_the_floor_and_shrinks_with_progress() {
    let mut stats = stats_at(1000, 0);
    stats.replay_lag_seconds = 9;
    assert_eq!(stats.eta_to(1000).unwrap().as_secs(), 0);
    assert_eq!(stats.eta_to(1001).unwrap().as_secs(), 9);

    let mut further = stats_at(1200, 0);
    further.replay_lag_seconds = 4;
    assert_eq!(further.eta_to(1500).unwrap().as_secs(), 4);
    assert_eq!(further.eta_to(1100).unwrap().as_secs(), 0);
}

#[test]
fn conversion_carries_no_lag() {
    let stats = stats_at(1000, 0);
    assert_eq!(stats.replay_lag_seconds, 0);
    assert_eq!(stats.eta_to(i64::MAX), Some(Duration::zero()));
}

#[test]
fn replica_lag_in_bytes_and_whole_milliseconds() {
    let replica = stats_at(1000, 5_000_000);
    let primary = stats_at(1700, 6_234_999);
    let lag = replica.replica_lag(&primary);
    assert_eq!(lag.bytes, 700);
    assert_eq!(lag.duration, Duration::from_millis(1_234));
}

#[test]
fn replica_lag_floors_at_zero_when_ahead() {
    let replica = stats_at(1700, 6_234_999);
    let primary = stats_at(1000, 5_000_000);
    let lag = replica.replica_lag(&primary);
    assert_eq!(lag.bytes, -700);
    assert_eq!(lag.duration, Duration::zero());
}

#[test]
fn replica_lag_to_itself_is_nothing() {
    let stats = stats_at(1000, 5_000_000);
    let lag = stats.replica_lag(&stats);
    assert_eq!(lag.bytes, 0);
    assert_eq!(lag.duration, Duration::zero());
}

#[test]
fn replica_lag_over_the_whole_range_of_timestamps() {
    let replica = stats_at(1, i64::MIN);
    let primary = stats_at(1, i64::MAX);
    let lag = replica.replica_lag(&primary);
    assert_eq!(lag.duration, Duration::from_millis(18_446_744_073_709_551));
}

#[test]
fn lag_grows_as_the_replica_falls_back() {
    let primary = stats_at(1, 10_000_000);
    let newer = stats_at(1, 9_000_000).replica_lag(&primary);
    let older = stats_at(1, 7_500_000).replica_lag(&primary);
    assert_eq!(newer.duration, Duration::from_millis(1_000));
    assert_eq!(older.duration, Duration::from_millis(2_500));
}

#[test]
fn age_counts_from_the_fetch() {
    let mut stats = stats_at(1, 0);
    stats.fetched = SystemTime::from_epoch_offset(Ok(Duration::new(100, 900_000_000)));
    let now = SystemTime::from_epoch_offset(Ok(Duration::new(103, 100_000_000)));
    assert_eq!(stats.lsn_age(now), Duration::new(2, 200_000_000));
}

#[test]
fn age_is_zero_when_the_clock_went_back() {
    let mut stats = stats_at(1, 0);
    stats.fetched = SystemTime::from_epoch_offset(Ok(Duration::new(100, 1)));
    let now = SystemTime::from_epoch_offset(Ok(Duration::new(100, 0)));
    assert_eq!(stats.lsn_age(now), Duration::zero());
    assert_eq!(stats.lsn_age(stats.fetched), Duration::zero());
}

#[test]
fn stats_are_reached_through_the_wrapper() {
    let mut stats = stats_at(1000, 0);
    assert_eq!(stats.lsn.lsn, 1000);
    stats.lsn.lsn = 2000;
    assert_eq!(stats.inner.lsn.lsn, 2000);
}

#[test]
fn full_row_is_read() {
    let before = SystemTime::now();
    let stats = LsnStats::from_row(full_row(), false);
    let after = SystemTime::now();
    assert!(stats.replica);
    assert_eq!(stats.lsn.lsn, 1000);
    assert_eq!(stats.offset_bytes, 1001);
    assert_eq!(stats.timestamp, Timestamp { micros: 1002 });
    assert_eq!(stats.replay_lag_seconds, 7);
    assert!(!stats.aurora);
    assert!(stats.fetched.duration_since(before).is_some());
    assert!(after.duration_since(stats.fetched).is_some());
}

#[test]
fn further_columns_change_nothing() {
    let mut row = full_row();
    row.columns.push(Some(Column::Bigint(99)));
    let fetched = SystemTime::from_epoch_offset(Ok(Duration::from_secs(5)));
    let stats = LsnStats::from_row_at(&row, true, fetched);
    assert_eq!(stats.replay_lag_seconds, 7);
    assert_eq!(stats.fetched, fetched);
    assert!(stats.aurora);
}

#[test]
fn missing_columns_read_as_zero() {
    for row in [
        DataRow { columns: vec![] },
        DataRow {
            columns: vec![None, None, None, None, None],
        },
        // Columns of other types than the query answers with.
        DataRow {
            columns: vec![
                Some(Column::Bigint(1)),
                Some(Column::Bigint(1)),
                Some(Column::Bool(true)),
                Some(Column::Bool(true)),
                Some(Column::Bool(true)),
            ],
        },
    ] {
        let stats = LsnStats::from_row(row, false);
        assert!(!stats.replica);
        assert_eq!(stats.lsn, Lsn::default());
        assert_eq!(stats.offset_bytes, 0);
        assert_eq!(stats.timestamp, Timestamp::default());
        assert_eq!(stats.replay_lag_seconds, 0);
        assert!(!stats.valid());
    }
}

#[test]
fn aurora_row_is_valid_whatever_it_holds() {
    let stats = LsnStats::from_row(DataRow { columns: vec![] }, true);
    assert!(stats.valid());
    assert_eq!(stats.eta_to(0), Some(Duration::zero()));
}

#[test]
fn column_types_of_the_query() {
    let types: Vec<_> = (0..LSN_COLUMNS).map(|i| lsn_column_type(i)).collect();
    assert_eq!(
        types,
        vec![
            Some(ColumnType::Bool),
            Some(ColumnType::Lsn),
            Some(ColumnType::Bigint),
            Some(ColumnType::Timestamp),
            Some(ColumnType::Bigint),
        ]
    );
    assert_eq!(lsn_column_type(LSN_COLUMNS), None);
}

#[test]
fn default_stats_carry_no_lag() {
    assert_eq!(LsnStats::default().replay_lag_seconds, 0);
}
