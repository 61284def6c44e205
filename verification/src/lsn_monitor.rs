//! The loop that keeps a database's log position current, as a state machine.
//!
//! The machine decides; whoever drives it performs the [`Action`] it asks for
//! and reports what came of it as the next [`Event`].

use crate::data_row::DataRow;
use vstd::prelude::*;

verus! {

/// Succeeds on Aurora only.
pub const AURORA_DETECTION_QUERY: &'static str = "SELECT aurora_version()";

/// Asks a database for its log position.
pub const LSN_QUERY: &'static str = "
SELECT
    pg_is_in_recovery() AS replica,
    CASE
        WHEN pg_is_in_recovery() THEN
            COALESCE(
                pg_last_wal_replay_lsn(),
                pg_last_wal_receive_lsn()
            )
        ELSE
            pg_current_wal_lsn()
    END AS lsn,
    CASE
        WHEN pg_is_in_recovery() THEN
            COALESCE(
                pg_last_wal_replay_lsn(),
                pg_last_wal_receive_lsn()
            ) - '0/0'::pg_lsn
        ELSE
            pg_current_wal_lsn() - '0/0'::pg_lsn
    END AS offset_bytes,
    CASE
        WHEN pg_is_in_recovery() THEN
            COALESCE(pg_last_xact_replay_timestamp(), now())
        ELSE
            now()
    END AS timestamp,
    CASE
        WHEN pg_is_in_recovery() THEN
            COALESCE(
                EXTRACT(EPOCH FROM (now() - pg_last_xact_replay_timestamp()))::bigint,
                0
            )
        ELSE
            0
    END AS replay_lag_seconds
";

/// Asks Aurora the same, in the same columns; it exposes no log positions.
pub const AURORA_LSN_QUERY: &'static str = "
SELECT
    pg_is_in_recovery() AS replica,
    '0/0'::pg_lsn AS lsn,
    0::bigint AS offset_bytes,
    now() AS timestamp,
    0::bigint AS replay_lag_seconds
";

/// What became of a query.
#[derive(Debug, PartialEq)]
pub enum FetchOutcome {
    /// The database answered with these rows.
    Rows(Vec<DataRow>),
    /// The database refused to execute the query.
    ExecutionError,
    /// The query failed in another way.
    OtherError,
    /// No answer came in time.
    Timeout,
}

/// What became of a request for a connection.
#[derive(Clone, Copy, Debug, PartialEq, Eq, Structural)]
pub enum CheckoutOutcome {
    Connected,
    /// The pool has been shut down.
    Offline,
    Failed,
}

/// What the driver of the monitor reports.
#[derive(Debug, PartialEq)]
pub enum Event {
    /// The initial delay is over.
    DelayElapsed,
    /// The check interval has come round.
    Tick,
    /// The pool is shutting down.
    Shutdown,
    Checkout(CheckoutOutcome),
    Fetched(FetchOutcome),
    /// The new stats are in place.
    Published,
}

/// What the monitor asks its driver to do.
#[derive(Debug, PartialEq)]
pub enum Action {
    /// Sleep through the initial delay, or until shutdown.
    Delay,
    /// Give the connection back, if one is held, and wait for the check
    /// interval to come round, or for shutdown.
    AwaitTick,
    /// Get a connection from the pool.
    Checkout,
    /// Run this query on the connection.
    Fetch(&'static str),
    /// Give the connection back and replace the pool's stats with those of the
    /// row.
    Publish { row: DataRow, aurora: bool },
    /// End the loop.
    Stop,
}

/// LSN monitor loop. Whether the database is Aurora is not known until a
/// detection query has been answered.
#[derive(Clone, Copy, Debug, PartialEq, Eq, Structural)]
pub enum LsnMonitor {
    Delaying,
    Waiting { detected: Option<bool> },
    CheckingOut { detected: Option<bool> },
    Detecting,
    Querying { aurora: bool },
    Publishing { aurora: bool },
    Stopped,
}

/// The log-position query that a database understands.
pub open spec fn lsn_query_spec(aurora: bool) -> &'static str {
    if aurora {
        AURORA_LSN_QUERY
    } else {
        LSN_QUERY
    }
}

/// The log-position query that a database understands.
pub fn lsn_query(aurora: bool) -> (query: &'static str)
    ensures
        query == lsn_query_spec(aurora),
{
    if aurora {
        AURORA_LSN_QUERY
    } else {
        LSN_QUERY
    }
}

impl FetchOutcome {
    /// First of the rows that were answered, if any.
    pub open spec fn first_row(self) -> Option<DataRow> {
        match self {
            FetchOutcome::Rows(rows) => if rows@.len() > 0 {
                Some(rows@[0])
            } else {
                None
            },
            _ => None,
        }
    }

    /// What the outcome of [`AURORA_DETECTION_QUERY`] tells: an answer comes
    /// from Aurora, a refusal from another database, and a failure tells
    /// nothing.
    pub open spec fn aurora_verdict(self) -> Option<bool> {
        match self {
            FetchOutcome::Rows(_) => Some(true),
            FetchOutcome::ExecutionError => Some(false),
            FetchOutcome::OtherError | FetchOutcome::Timeout => None,
        }
    }
}

impl Action {
    /// The event is one that performing the action can end in.
    pub open spec fn can_end_in(self, event: Event) -> bool {
        match self {
            Action::Delay => event is DelayElapsed || event is Shutdown,
            Action::AwaitTick => event is Tick || event is Shutdown,
            Action::Checkout => event is Checkout,
            Action::Fetch(_) => event is Fetched,
            Action::Publish { .. } => event is Published,
            Action::Stop => false,
        }
    }
}

impl LsnMonitor {
    /// What is known of the database.
    pub open spec fn aurora_detected(self) -> Option<bool> {
        match self {
            LsnMonitor::Waiting { detected } => detected,
            LsnMonitor::CheckingOut { detected } => detected,
            LsnMonitor::Querying { aurora } => Some(aurora),
            LsnMonitor::Publishing { aurora } => Some(aurora),
            LsnMonitor::Delaying | LsnMonitor::Detecting | LsnMonitor::Stopped => None,
        }
    }

    /// Where the event leads, and what is to be done there; `None` for an event
    /// that the pending action cannot end in.
    pub open spec fn next(self, event: Event) -> Option<(LsnMonitor, Action)> {
        match (self, event) {
            (LsnMonitor::Delaying, Event::Shutdown) => Some((LsnMonitor::Stopped, Action::Stop)),
            (LsnMonitor::Delaying, Event::DelayElapsed) => Some(
                (LsnMonitor::Waiting { detected: None }, Action::AwaitTick),
            ),
            (LsnMonitor::Waiting { .. }, Event::Shutdown) => Some(
                (LsnMonitor::Stopped, Action::Stop),
            ),
            (LsnMonitor::Waiting { detected }, Event::Tick) => Some(
                (LsnMonitor::CheckingOut { detected }, Action::Checkout),
            ),
            (LsnMonitor::CheckingOut { detected }, Event::Checkout(outcome)) => Some(
                match (outcome, detected) {
                    (CheckoutOutcome::Offline, _) => (LsnMonitor::Stopped, Action::Stop),
                    (CheckoutOutcome::Failed, _) => (
                        LsnMonitor::Waiting { detected },
                        Action::AwaitTick,
                    ),
                    (CheckoutOutcome::Connected, None) => (
                        LsnMonitor::Detecting,
                        Action::Fetch(AURORA_DETECTION_QUERY),
                    ),
                    (CheckoutOutcome::Connected, Some(aurora)) => (
                        LsnMonitor::Querying { aurora },
                        Action::Fetch(lsn_query_spec(aurora)),
                    ),
                },
            ),
            (LsnMonitor::Detecting, Event::Fetched(outcome)) => Some(
                match outcome.aurora_verdict() {
                    None => (LsnMonitor::Waiting { detected: None }, Action::AwaitTick),
                    Some(aurora) => (
                        LsnMonitor::Querying { aurora },
                        Action::Fetch(lsn_query_spec(aurora)),
                    ),
                },
            ),
            (LsnMonitor::Querying { aurora }, Event::Fetched(outcome)) => Some(
                match outcome.first_row() {
                    None => (LsnMonitor::Waiting { detected: Some(aurora) }, Action::AwaitTick),
                    Some(row) => (
                        LsnMonitor::Publishing { aurora },
                        Action::Publish { row, aurora },
                    ),
                },
            ),
            (LsnMonitor::Publishing { aurora }, Event::Published) => Some(
                (LsnMonitor::Waiting { detected: Some(aurora) }, Action::AwaitTick),
            ),
            _ => None,
        }
    }

    /// Where a run of events leads, or `None` when one of them was not to be
    /// expected.
    pub open spec fn after(self, events: Seq<Event>) -> Option<LsnMonitor>
        decreases events.len(),
    {
        if events.len() == 0 {
            Some(self)
        } else {
            match self.after(events.drop_last()) {
                None => None,
                Some(monitor) => match monitor.next(events.last()) {
                    None => None,
                    Some((next, _)) => Some(next),
                },
            }
        }
    }

    /// A monitor at its start, and what it asks for first.
    pub fn start() -> (started: (LsnMonitor, Action))
        ensures
            started == (LsnMonitor::Delaying, Action::Delay),
    {
        (LsnMonitor::Delaying, Action::Delay)
    }

    /// Takes in an event: where it leads, and what is to be done there. `None`
    /// when the event is none that the pending action can end in.
    pub fn step(self, event: Event) -> (next: Option<(LsnMonitor, Action)>)
        ensures
            next == self.next(event),
    {
        match (self, event) {
            (LsnMonitor::Delaying, Event::Shutdown) => Some((LsnMonitor::Stopped, Action::Stop)),
            (LsnMonitor::Delaying, Event::DelayElapsed) => Some(
                (LsnMonitor::Waiting { detected: None }, Action::AwaitTick),
            ),
            (LsnMonitor::Waiting { .. }, Event::Shutdown) => Some(
                (LsnMonitor::Stopped, Action::Stop),
            ),
            (LsnMonitor::Waiting { detected }, Event::Tick) => Some(
                (LsnMonitor::CheckingOut { detected }, Action::Checkout),
            ),
            (LsnMonitor::CheckingOut { detected }, Event::Checkout(outcome)) => match outcome {
                CheckoutOutcome::Offline => Some((LsnMonitor::Stopped, Action::Stop)),
                CheckoutOutcome::Failed => Some(
                    (LsnMonitor::Waiting { detected }, Action::AwaitTick),
                ),
                CheckoutOutcome::Connected => match detected {
                    None => Some((LsnMonitor::Detecting, Action::Fetch(AURORA_DETECTION_QUERY))),
                    Some(aurora) => Some(
                        (LsnMonitor::Querying { aurora }, Action::Fetch(lsn_query(aurora))),
                    ),
                },
            },
            (LsnMonitor::Detecting, Event::Fetched(outcome)) => {
                match LsnMonitor::detect_aurora(&outcome) {
                    None => Some((LsnMonitor::Waiting { detected: None }, Action::AwaitTick)),
                    Some(aurora) => Some(
                        (LsnMonitor::Querying { aurora }, Action::Fetch(lsn_query(aurora))),
                    ),
                }
            },
            (LsnMonitor::Querying { aurora }, Event::Fetched(outcome)) => {
                match LsnMonitor::run_query(outcome) {
                    None => Some((LsnMonitor::Waiting { detected: Some(aurora) }, Action::AwaitTick)),
                    Some(row) => Some(
                        (LsnMonitor::Publishing { aurora }, Action::Publish { row, aurora }),
                    ),
                }
            },
            (LsnMonitor::Publishing { aurora }, Event::Published) => Some(
                (LsnMonitor::Waiting { detected: Some(aurora) }, Action::AwaitTick),
            ),
            _ => None,
        }
    }

    /// The row to take from the outcome of a log-position query: the first one
    /// answered. None comes from an empty answer or a failure.
    pub fn run_query(outcome: FetchOutcome) -> (row: Option<DataRow>)
        ensures
            row == outcome.first_row(),
    {
        match outcome {
            FetchOutcome::Rows(mut rows) => {
                if rows.len() > 0 {
                    Some(rows.remove(0))
                } else {
                    None
                }
            },
            _ => None,
        }
    }

    /// Whether the database is Aurora, as far as the outcome of
    /// [`AURORA_DETECTION_QUERY`] tells.
    pub fn detect_aurora(outcome: &FetchOutcome) -> (verdict: Option<bool>)
        ensures
            verdict == outcome.aurora_verdict(),
    {
        match outcome {
            FetchOutcome::Rows(_) => Some(true),
            FetchOutcome::ExecutionError => Some(false),
            FetchOutcome::OtherError => None,
            FetchOutcome::Timeout => None,
        }
    }
}

/// The monitor takes in every event that the action it asked for can end in, and
/// no other: from its start, and from wherever an event has led it.
pub proof fn law_actions_end_in_expected_events(
    monitor: LsnMonitor,
    event: Event,
    following: Event,
)
    ensures
        LsnMonitor::Delaying.next(event) is Some <==> Action::Delay.can_end_in(event),
        monitor.next(event) matches Some((next, action)) ==> (next.next(following) is Some
            <==> action.can_end_in(following)),
{
}

/// A verdict on Aurora is final: whatever happens later, a monitor that has one
/// keeps it for as long as it runs.
pub proof fn law_verdict_is_final(monitor: LsnMonitor, events: Seq<Event>, aurora: bool)
    requires
        monitor.aurora_detected() == Some(aurora),
    ensures
        monitor.after(events) matches Some(later) ==> later is Stopped || later.aurora_detected()
            == Some(aurora),
    decreases events.len(),
{
    if events.len() > 0 {
        law_verdict_is_final(monitor, events.drop_last(), aurora);
    }
}

/// Once there is a verdict, every query is the one for that kind of database,
/// and everything published is marked with it.
pub proof fn law_verdict_decides_query(
    monitor: LsnMonitor,
    events: Seq<Event>,
    event: Event,
    aurora: bool,
)
    requires
        monitor.aurora_detected() == Some(aurora),
        monitor.after(events) is Some,
        monitor.after(events)->0.next(event) is Some,
    ensures
        match (monitor.after(events)->0.next(event)->0).1 {
            Action::Fetch(query) => query == lsn_query_spec(aurora),
            Action::Publish { aurora: published, .. } => published == aurora,
            _ => true,
        },
{
    law_verdict_is_final(monitor, events, aurora);
}

/// A monitor comes to a verdict only through the outcome of a detection query,
/// and to the verdict which that outcome tells.
pub proof fn law_verdict_is_detected(events: Seq<Event>, aurora: bool)
    requires
        LsnMonitor::Delaying.after(events) is Some,
        LsnMonitor::Delaying.after(events)->0.aurora_detected() == Some(aurora),
    ensures
        exists|i: int|
            0 <= i < events.len() && LsnMonitor::Delaying.after(#[trigger] events.take(i)) == Some(
                LsnMonitor::Detecting,
            ) && (events[i] matches Event::Fetched(outcome) && outcome.aurora_verdict() == Some(
                aurora,
            )),
    decreases events.len(),
{
    let before = events.drop_last();
    let monitor = LsnMonitor::Delaying.after(before)->0;
    if monitor is Detecting {
        let i = events.len() - 1;
        assert(events.take(i) =~= before);
    } else {
        law_verdict_is_detected(before, aurora);
        let i = choose|i: int|
            0 <= i < before.len() && LsnMonitor::Delaying.after(#[trigger] before.take(i)) == Some(
                LsnMonitor::Detecting,
            ) && (before[i] matches Event::Fetched(outcome) && outcome.aurora_verdict() == Some(
                aurora,
            ));
        assert(events.take(i) =~= before.take(i));
        assert(events[i] == before[i]);
    }
}

/// A detection query that failed is repeated at the next check.
pub proof fn law_failed_detection_is_repeated(outcome: FetchOutcome)
    requires
        outcome.aurora_verdict() is None,
    ensures
        LsnMonitor::Detecting.after(
            seq![
                Event::Fetched(outcome),
                Event::Tick,
                Event::Checkout(CheckoutOutcome::Connected),
            ],
        ) == Some(LsnMonitor::Detecting),
{
    let events = seq![
        Event::Fetched(outcome),
        Event::Tick,
        Event::Checkout(CheckoutOutcome::Connected),
    ];
    reveal_with_fuel(LsnMonitor::after, 4);
    assert(events.drop_last().drop_last().drop_last() =~= Seq::<Event>::empty());
}

/// Detection is asked for only while there is no verdict.
pub proof fn law_detects_only_without_verdict(monitor: LsnMonitor, event: Event)
    requires
        monitor.next(event) is Some,
        (monitor.next(event)->0).0 is Detecting,
    ensures
        monitor.aurora_detected() is None,
        (monitor.next(event)->0).1 == Action::Fetch(AURORA_DETECTION_QUERY),
{
}

/// The loop ends on shutdown and when the pool is offline, and on nothing else:
/// no failed checkout, query or detection ends it.
pub proof fn law_only_shutdown_stops(monitor: LsnMonitor, event: Event)
    requires
        monitor.next(event) is Some,
    ensures
        (monitor.next(event)->0).0 is Stopped <==> event == Event::Shutdown || event
            == Event::Checkout(CheckoutOutcome::Offline),
        (monitor.next(event)->0).1 is Stop <==> (monitor.next(event)->0).0 is Stopped,
{
}

/// While the monitor waits, for the initial delay or for the next check, a
/// shutdown ends it; and an ended monitor takes in nothing more.
pub proof fn law_shutdown_is_heeded(monitor: LsnMonitor, event: Event)
    ensures
        monitor is Delaying || monitor is Waiting ==> monitor.next(Event::Shutdown) == Some(
            (LsnMonitor::Stopped, Action::Stop),
        ),
        LsnMonitor::Stopped.next(event) is None,
{
}

/// A connection is asked for once per check, when the interval comes round, and
/// never while one is held.
pub proof fn law_one_checkout_per_tick(monitor: LsnMonitor, event: Event)
    requires
        monitor.next(event) is Some,
    ensures
        (monitor.next(event)->0).1 is Checkout <==> event is Tick,
        event is Tick ==> monitor is Waiting,
{
}

/// Stats are published exactly when a log-position query was answered with a
/// row, and then from the first row.
pub proof fn law_published_is_first_answer(monitor: LsnMonitor, event: Event)
    requires
        monitor.next(event) is Some,
    ensures
        (monitor.next(event)->0).1 is Publish <==> monitor is Querying && (
        event matches Event::Fetched(FetchOutcome::Rows(rows)) && rows@.len() > 0),
        (monitor.next(event)->0).1 matches Action::Publish { row, aurora } ==> (
        event matches Event::Fetched(FetchOutcome::Rows(rows)) && row == rows@[0]) && monitor
            == (LsnMonitor::Querying { aurora }),
{
}

/// What each state knows of the database.
pub proof fn law_knowledge_of_states(detected: Option<bool>, aurora: bool)
    ensures
        (LsnMonitor::Waiting { detected }).aurora_detected() == detected,
        (LsnMonitor::CheckingOut { detected }).aurora_detected() == detected,
        (LsnMonitor::Querying { aurora }).aurora_detected() == Some(aurora),
        (LsnMonitor::Publishing { aurora }).aurora_detected() == Some(aurora),
        LsnMonitor::Delaying.aurora_detected() is None,
        LsnMonitor::Detecting.aurora_detected() is None,
{
}

/// A run of events is taken in one by one.
pub proof fn law_runs_are_steps(monitor: LsnMonitor, events: Seq<Event>, event: Event)
    ensures
        monitor.after(Seq::empty()) == Some(monitor),
        monitor.after(events) is None ==> monitor.after(events.push(event)) is None,
        monitor.after(events) matches Some(reached) ==> match reached.next(event) {
            Some((next, _)) => monitor.after(events.push(event)) == Some(next),
            None => monitor.after(events.push(event)) is None,
        },
{
    assert(events.push(event).drop_last() =~= events);
}

/// Every state takes in the reports that its action can end in, and refuses all
/// others.
pub proof fn law_reports_are_taken(event: Event, detected: Option<bool>, aurora: bool)
    ensures
        LsnMonitor::Delaying.next(event) is Some <==> event is DelayElapsed || event is Shutdown,
        (LsnMonitor::Waiting { detected }).next(event) is Some <==> event is Tick
            || event is Shutdown,
        (LsnMonitor::CheckingOut { detected }).next(event) is Some <==> event is Checkout,
        LsnMonitor::Detecting.next(event) is Some <==> event is Fetched,
        (LsnMonitor::Querying { aurora }).next(event) is Some <==> event is Fetched,
        (LsnMonitor::Publishing { aurora }).next(event) is Some <==> event is Published,
        LsnMonitor::Stopped.next(event) is None,
{
}

/// A connection is put to use: a monitor that knows its database asks it for its
/// position, at every check and for either verdict, and one that does not asks
/// whether it is Aurora.
pub proof fn law_connection_is_used(detected: Option<bool>)
    ensures
        match detected {
            Some(aurora) => (LsnMonitor::CheckingOut { detected }).next(
                Event::Checkout(CheckoutOutcome::Connected),
            ) == Some(
                (
                    LsnMonitor::Querying { aurora },
                    Action::Fetch(if aurora { AURORA_LSN_QUERY } else { LSN_QUERY }),
                ),
            ),
            None => (LsnMonitor::CheckingOut { detected }).next(
                Event::Checkout(CheckoutOutcome::Connected),
            ) == Some((LsnMonitor::Detecting, Action::Fetch(AURORA_DETECTION_QUERY))),
        },
{
}

/// A verdict is put to use at once, on the connection that gave it: whatever rows
/// answer the detection query, the database is Aurora and is asked as such; if it
/// refuses to execute the query, it is asked as any other.
pub proof fn law_verdict_is_used(rows: Vec<DataRow>)
    ensures
        LsnMonitor::Detecting.next(Event::Fetched(FetchOutcome::Rows(rows))) == Some(
            (LsnMonitor::Querying { aurora: true }, Action::Fetch(AURORA_LSN_QUERY)),
        ),
        LsnMonitor::Detecting.next(Event::Fetched(FetchOutcome::ExecutionError)) == Some(
            (LsnMonitor::Querying { aurora: false }, Action::Fetch(LSN_QUERY)),
        ),
        FetchOutcome::Rows(rows).aurora_verdict() == Some(true),
        FetchOutcome::ExecutionError.aurora_verdict() == Some(false),
        FetchOutcome::OtherError.aurora_verdict() is None,
        FetchOutcome::Timeout.aurora_verdict() is None,
{
}

/// An answer is put to use: of any rows, the first is published, and nothing is
/// taken from an empty answer or a failure.
pub proof fn law_answer_is_used(aurora: bool, rows: Vec<DataRow>)
    ensures
        rows@.len() > 0 ==> (LsnMonitor::Querying { aurora }).next(
            Event::Fetched(FetchOutcome::Rows(rows)),
        ) == Some(
            (LsnMonitor::Publishing { aurora }, Action::Publish { row: rows@[0], aurora }),
        ),
        rows@.len() > 0 ==> FetchOutcome::Rows(rows).first_row() == Some(rows@[0]),
        rows@.len() == 0 ==> FetchOutcome::Rows(rows).first_row() is None,
        FetchOutcome::ExecutionError.first_row() is None,
        FetchOutcome::OtherError.first_row() is None,
        FetchOutcome::Timeout.first_row() is None,
{
}

/// A query is made when a connection has come and when a detection query has
/// brought a verdict, and at no other time: none is repeated within a check.
pub proof fn law_queries_are_not_repeated(monitor: LsnMonitor, event: Event)
    requires
        monitor.next(event) is Some,
    ensures
        (monitor.next(event)->0).1 is Fetch <==> event == Event::Checkout(
            CheckoutOutcome::Connected,
        ) || monitor is Detecting && (event matches Event::Fetched(outcome) && (
        outcome is Rows || outcome is ExecutionError)),
{
}

/// The monitor waits for the next check when the delay is over, after a failed
/// checkout or query, after an empty answer, and once it has published; and it
/// waits knowing what it knew.
pub proof fn law_waits_between_checks(monitor: LsnMonitor, event: Event)
    requires
        monitor.next(event) is Some,
    ensures
        (monitor.next(event)->0).0 is Waiting <==> (monitor.next(event)->0).1 is AwaitTick,
        (monitor.next(event)->0).0 is Waiting ==> (monitor.next(event)->0).0
            == (LsnMonitor::Waiting { detected: monitor.aurora_detected() }),
        (monitor.next(event)->0).0 is Waiting <==> event is DelayElapsed || event is Published
            || event == Event::Checkout(CheckoutOutcome::Failed) || monitor is Detecting && (
        event matches Event::Fetched(outcome) && (outcome is OtherError || outcome is Timeout))
            || monitor is Querying && (event matches Event::Fetched(outcome) && (
        outcome matches FetchOutcome::Rows(rows) ==> rows@.len() == 0)),
{
}

/// A tick starts a check with what is known, whatever that is.
pub proof fn law_tick_starts_check(detected: Option<bool>)
    ensures
        (LsnMonitor::Waiting { detected }).next(Event::Tick) == Some(
            (LsnMonitor::CheckingOut { detected }, Action::Checkout),
        ),
{
}

/// Checks go on: one that is answered ends where it began, knowing the same, so
/// the next one is like it.
pub proof fn law_answered_check_leads_to_next(aurora: bool, rows: Vec<DataRow>)
    requires
        rows@.len() > 0,
    ensures
        (LsnMonitor::Waiting { detected: Some(aurora) }).after(
            seq![
                Event::Tick,
                Event::Checkout(CheckoutOutcome::Connected),
                Event::Fetched(FetchOutcome::Rows(rows)),
                Event::Published,
            ],
        ) == Some(LsnMonitor::Waiting { detected: Some(aurora) }),
{
    let events = seq![
        Event::Tick,
        Event::Checkout(CheckoutOutcome::Connected),
        Event::Fetched(FetchOutcome::Rows(rows)),
        Event::Published,
    ];
    reveal_with_fuel(LsnMonitor::after, 5);
    assert(events.drop_last().drop_last().drop_last().drop_last() =~= Seq::<Event>::empty());
}

/// The query for a kind of database, and the three texts themselves.
pub proof fn law_query_texts()
    ensures
        lsn_query_spec(true) == AURORA_LSN_QUERY,
        lsn_query_spec(false) == LSN_QUERY,
        AURORA_DETECTION_QUERY@ == "SELECT aurora_version()"@,
        LSN_QUERY@ == "
SELECT
    pg_is_in_recovery() AS replica,
    CASE
        WHEN pg_is_in_recovery() THEN
            COALESCE(
                pg_last_wal_replay_lsn(),
                pg_last_wal_receive_lsn()
            )
        ELSE
            pg_current_wal_lsn()
    END AS lsn,
    CASE
        WHEN pg_is_in_recovery() THEN
            COALESCE(
                pg_last_wal_replay_lsn(),
                pg_last_wal_receive_lsn()
            ) - '0/0'::pg_lsn
        ELSE
            pg_current_wal_lsn() - '0/0'::pg_lsn
    END AS offset_bytes,
    CASE
        WHEN pg_is_in_recovery() THEN
            COALESCE(pg_last_xact_replay_timestamp(), now())
        ELSE
            now()
    END AS timestamp,
    CASE
        WHEN pg_is_in_recovery() THEN
            COALESCE(
                EXTRACT(EPOCH FROM (now() - pg_last_xact_replay_timestamp()))::bigint,
                0
            )
        ELSE
            0
    END AS replay_lag_seconds
"@,
        AURORA_LSN_QUERY@ == "
SELECT
    pg_is_in_recovery() AS replica,
    '0/0'::pg_lsn AS lsn,
    0::bigint AS offset_bytes,
    now() AS timestamp,
    0::bigint AS replay_lag_seconds
"@,
{
}

} // verus!
