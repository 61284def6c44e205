use pgdog::time::{Duration, SystemTime, Timestamp};

fn since(secs: u64, nanos: u32) -> SystemTime {
    SystemTime::from_epoch_offset(Ok(Duration::new(secs, nanos)))
}

fn before(secs: u64, nanos: u32) -> SystemTime {
    SystemTime::from_epoch_offset(Err(Duration::new(secs, nanos)))
}

#[test]
fn durations_agree_with_std() {
    for millis in [0, 1, 999, 1_000, 86_400_000, u64::MAX] {
        let ours = Duration::from_millis(millis);
        let theirs = std::time::Duration::from_millis(millis);
        assert_eq!(ours.as_secs(), theirs.as_secs());
        assert_eq!(ours.subsec_nanos(), theirs.subsec_nanos());
    }
    let carried = Duration::new(3, 2_500_000_000);
    assert_eq!(carried.as_secs(), 5);
    assert_eq!(carried.subsec_nanos(), 500_000_000);
    assert_eq!(Duration::from_secs(u64::MAX).as_secs(), u64::MAX);
    assert_eq!(Duration::default(), Duration::zero());
}

#[test]
fn wall_clock_agrees_with_std() {
    let reading = || {
        let offset = std::time::SystemTime::now()
            .duration_since(std::time::UNIX_EPOCH)
            .unwrap();
        since(offset.as_secs(), offset.subsec_nanos())
    };
    let earlier = reading();
    let now = SystemTime::now();
    let later = reading();
    assert!(now.duration_since(earlier).is_some());
    assert!(later.duration_since(now).is_some());
}

#[test]
fn spans_across_the_epoch() {
    let span = since(1, 200_000_000).duration_since(before(1, 900_000_000));
    assert_eq!(span, Some(Duration::new(3, 100_000_000)));
    let span = before(1, 900_000_000).duration_since(before(2, 100_000_000));
    assert_eq!(span, Some(Duration::new(0, 200_000_000)));
    assert_eq!(before(1, 0).duration_since(since(0, 0)), None);
    assert_eq!(before(0, 0), since(0, 0));
    assert_eq!(since(0, 0).duration_since(before(0, 0)), Some(Duration::zero()));
}

#[test]
fn readings_out_of_range_are_held_at_its_end() {
    let latest = since(u64::MAX, 0);
    assert_eq!(latest, since(i64::MAX as u64, 999_999_999));
    let earliest = before(u64::MAX, 0);
    assert_eq!(earliest, before(i64::MAX as u64 + 1, 0));
    assert_eq!(
        latest.duration_since(earliest),
        Some(Duration::new(u64::MAX, 999_999_999))
    );
    assert_eq!(earliest.duration_since(latest), None);
}

#[test]
fn milliseconds_between_timestamps() {
    let at = |micros: i64| Timestamp { micros };
    assert_eq!(at(1_999).millis_since(at(0)), 1);
    assert_eq!(at(0).millis_since(at(-1_000)), 1);
    assert_eq!(at(0).millis_since(at(1_999)), 0);
    assert_eq!(at(5).millis_since(at(5)), 0);
}

#[test]
fn clock_offsets_on_both_sides_of_the_epoch() {
    assert_eq!(SystemTime::from_clock(Ok((7, 5))), since(7, 5));
    assert_eq!(SystemTime::from_clock(Err((7, 5))), before(7, 5));
    assert_ne!(since(7, 5), before(7, 5));
    assert_eq!(SystemTime::from_clock(Ok((u64::MAX, 0))), since(u64::MAX, 0));
    assert_eq!(SystemTime::from_clock(Err((u64::MAX, 0))), before(u64::MAX, 0));
}
