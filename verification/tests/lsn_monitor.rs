use pgdog::data_row::{Column, DataRow};
use pgdog::lsn_monitor::{
    lsn_query, Action, CheckoutOutcome, Event, FetchOutcome, LsnMonitor, AURORA_DETECTION_QUERY,
    AURORA_LSN_QUERY, LSN_QUERY,
};

fn row(value: i64) -> DataRow {
    DataRow {
        columns: vec![Some(Column::Bigint(value))],
    }
}

fn step(monitor: LsnMonitor, event: Event) -> (LsnMonitor, Action) {
    monitor.step(event).unwrap()
}

fn connected() -> Event {
    Event::Checkout(CheckoutOutcome::Connected)
}

fn answered(rows: Vec<DataRow>) -> Event {
    Event::Fetched(FetchOutcome::Rows(rows))
}

/// A monitor that is about to check out its first connection.
fn first_check() -> LsnMonitor {
    let (monitor, action) = LsnMonitor::start();
    assert_eq!(action, Action::Delay);
    let (monitor, action) = step(monitor, Event::DelayElapsed);
    assert_eq!(action, Action::AwaitTick);
    let (monitor, action) = step(monitor, Event::Tick);
    assert_eq!(action, Action::Checkout);
    monitor
}

#[test]
fn detects_once_and_publishes_at_every_check() {
    let mut monitor = first_check();
    let (detecting, action) = step(monitor, connected());
    assert_eq!(action, Action::Fetch(AURORA_DETECTION_QUERY));

    let (querying, action) = step(detecting, Event::Fetched(FetchOutcome::ExecutionError));
    assert_eq!(action, Action::Fetch(LSN_QUERY));
    monitor = querying;

    for check in 0..3 {
        let (publishing, action) = step(monitor, answered(vec![row(check), row(-1)]));
        assert_eq!(
            action,
            Action::Publish {
                row: row(check),
                aurora: false
            }
        );
        let (waiting, action) = step(publishing, Event::Published);
        assert_eq!(action, Action::AwaitTick);
        let (checking_out, action) = step(waiting, Event::Tick);
        assert_eq!(action, Action::Checkout);
        let (querying, action) = step(checking_out, connected());
        assert_eq!(action, Action::Fetch(LSN_QUERY));
        monitor = querying;
    }
}

#[test]
fn aurora_is_asked_its_own_query() {
    let (detecting, _) = step(first_check(), connected());
    let (querying, action) = step(detecting, answered(vec![]));
    assert_eq!(action, Action::Fetch(AURORA_LSN_QUERY));
    let (publishing, action) = step(querying, answered(vec![row(4)]));
    assert_eq!(
        action,
        Action::Publish {
            row: row(4),
            aurora: true
        }
    );
    assert_eq!(publishing, LsnMonitor::Publishing { aurora: true });
}

#[test]
fn failed_detection_is_repeated() {
    for outcome in [FetchOutcome::OtherError, FetchOutcome::Timeout] {
        let (detecting, _) = step(first_check(), connected());
        let (waiting, action) = step(detecting, Event::Fetched(outcome));
        assert_eq!(action, Action::AwaitTick);
        let (checking_out, _) = step(waiting, Event::Tick);
        let (detecting, action) = step(checking_out, connected());
        assert_eq!(detecting, LsnMonitor::Detecting);
        assert_eq!(action, Action::Fetch(AURORA_DETECTION_QUERY));
    }
}

#[test]
fn unanswered_query_publishes_nothing() {
    for outcome in [
        FetchOutcome::Rows(vec![]),
        FetchOutcome::ExecutionError,
        FetchOutcome::OtherError,
        FetchOutcome::Timeout,
    ] {
        let querying = LsnMonitor::Querying { aurora: true };
        let (waiting, action) = step(querying, Event::Fetched(outcome));
        assert_eq!(action, Action::AwaitTick);
        let detected = Some(true);
        assert_eq!(waiting, LsnMonitor::Waiting { detected });
    }
}

#[test]
fn failed_checkout_waits_for_the_next_check() {
    for detected in [None, Some(true), Some(false)] {
        let checking_out = LsnMonitor::CheckingOut { detected };
        let (waiting, action) = step(checking_out, Event::Checkout(CheckoutOutcome::Failed));
        assert_eq!(waiting, LsnMonitor::Waiting { detected });
        assert_eq!(action, Action::AwaitTick);
    }
}

#[test]
fn shutdown_and_offline_pool_end_the_loop() {
    let detected = None;
    for (monitor, event) in [
        (LsnMonitor::Delaying, Event::Shutdown),
        (LsnMonitor::Waiting { detected }, Event::Shutdown),
        (
            LsnMonitor::CheckingOut { detected },
            Event::Checkout(CheckoutOutcome::Offline),
        ),
    ] {
        assert_eq!(step(monitor, event), (LsnMonitor::Stopped, Action::Stop));
    }
    assert_eq!(LsnMonitor::Stopped.step(Event::Tick), None);
    assert_eq!(LsnMonitor::Stopped.step(Event::Shutdown), None);
}

#[test]
fn events_out_of_turn_are_refused() {
    assert_eq!(LsnMonitor::Delaying.step(Event::Tick), None);
    assert_eq!(LsnMonitor::Detecting.step(Event::Shutdown), None);
    assert_eq!(LsnMonitor::Detecting.step(connected()), None);
    let querying = LsnMonitor::Querying { aurora: false };
    assert_eq!(querying.step(Event::Published), None);
}

#[test]
fn outcomes_of_single_queries() {
    assert_eq!(
        LsnMonitor::run_query(FetchOutcome::Rows(vec![row(1), row(2)])),
        Some(row(1))
    );
    assert_eq!(LsnMonitor::run_query(FetchOutcome::Rows(vec![])), None);
    assert_eq!(LsnMonitor::run_query(FetchOutcome::OtherError), None);
    assert_eq!(LsnMonitor::run_query(FetchOutcome::Timeout), None);

    let verdict = |outcome| LsnMonitor::detect_aurora(&outcome);
    assert_eq!(verdict(FetchOutcome::Rows(vec![row(1)])), Some(true));
    assert_eq!(verdict(FetchOutcome::Rows(vec![])), Some(true));
    assert_eq!(verdict(FetchOutcome::ExecutionError), Some(false));
    assert_eq!(verdict(FetchOutcome::OtherError), None);
    assert_eq!(verdict(FetchOutcome::Timeout), None);
}

#[test]
fn queries() {
    assert_eq!(AURORA_DETECTION_QUERY, "SELECT aurora_version()");
    assert_eq!(lsn_query(true), AURORA_LSN_QUERY);
    assert_eq!(lsn_query(false), LSN_QUERY);
    assert!(LSN_QUERY.contains("pg_last_wal_replay_lsn()"));
    assert!(AURORA_LSN_QUERY.contains("'0/0'::pg_lsn AS lsn"));
    for query in [LSN_QUERY, AURORA_LSN_QUERY] {
        let columns: Vec<usize> = [
            "AS replica",
            "AS lsn",
            "AS offset_bytes",
            "AS timestamp",
            "AS replay_lag_seconds",
        ]
        .iter()
        .map(|name| query.find(name).unwrap())
        .collect();
        assert!(columns.windows(2).all(|pair| pair[0] < pair[1]));
    }
}
