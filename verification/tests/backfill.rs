use chrono::{TimeZone, Utc};
use orderx_core::backfill::{
    fetch_page_outcome, print_summary, process_page, record_batch_write, run_test_mode, test_mode_event, test_mode_written,
    TestModeAction,
    validate_date_range, Args, BackfillAction, BackfillEvent, BackfillPhase, BackfillRun,
    FetchPageOutcome, Stats, MAX_RETRIES,
};
use orderx_core::error::CoreError;
use orderx_core::fxstreet::{Fetch, FxstreetClient, Page};
use orderx_core::models::{EventSource, FxEventRaw};
use orderx_core::time::UtcTimestamp;

fn stamp(y: i32, m: u32, d: u32) -> UtcTimestamp {
    let dt = Utc.with_ymd_and_hms(y, m, d, 0, 0, 0).unwrap();
    UtcTimestamp::new(dt.timestamp(), dt.timestamp_subsec_nanos()).unwrap()
}

fn sample_args(page_size: usize, dry_run: bool) -> Args {
    Args { from: stamp(2026, 3, 1), to: stamp(2026, 3, 2), page_size, dry_run, test: false }
}

fn mock_page(client: &FxstreetClient, args: &Args, skip: usize) -> Result<Vec<FxEventRaw>, CoreError> {
    match client.fetch_event_dates_range(args.from, args.to, skip, args.page_size)? {
        Fetch::Ready(events) => Ok(events),
        Fetch::Send(_) => panic!("mock client sends nothing"),
    }
}

#[test]
fn accepts_valid_date_range() {
    let from = stamp(2026, 3, 1);
    let to = stamp(2026, 3, 2);
    let result = validate_date_range(from, to);
    assert!(result.is_ok());
}

#[test]
fn rejects_invalid_date_range() {
    let from = stamp(2026, 3, 3);
    let to = stamp(2026, 3, 2);
    let result = validate_date_range(from, to);
    assert!(result.is_err());
    assert_eq!(result.unwrap_err(), "Invalid range: --from must be earlier than or equal to --to");
    assert!(validate_date_range(from, from).is_ok());
}

#[test]
fn fetch_page_with_retry_returns_mock_first_page() {
    let args = sample_args(10, true);
    let client = FxstreetClient::new_mock();
    let mut stats = Stats::default();

    let result = fetch_page_outcome(0, 0, mock_page(&client, &args, 0), &mut stats);

    let events = match result {
        FetchPageOutcome::Page(events) => events,
        other => panic!("first mock page should return events: {:?}", other),
    };
    assert_eq!(events.len(), 2);
    assert_eq!(stats.retried, 0);
}

#[test]
fn fetch_page_with_retry_returns_empty_for_later_mock_page() {
    let args = sample_args(10, true);
    let client = FxstreetClient::new_mock();
    let mut stats = Stats::default();

    let result = fetch_page_outcome(0, 0, mock_page(&client, &args, 10), &mut stats);

    let events = match result {
        FetchPageOutcome::Page(events) => events,
        other => panic!("request itself should be successful: {:?}", other),
    };
    assert!(events.is_empty());
    assert_eq!(stats.retried, 0);
}

#[test]
fn process_page_dry_run_updates_fetched_only() {
    let args = sample_args(10, true);
    let client = FxstreetClient::new_mock();
    let raw_events = mock_page(&client, &args, 0).expect("mock range fetch should succeed");
    let mut stats = Stats::default();

    let batch = process_page(raw_events, true, &mut stats);

    assert_eq!(batch.count, 2);
    assert!(batch.records.is_none());
    assert_eq!(stats.fetched, 2);
    assert_eq!(stats.inserted, 0);
    assert_eq!(stats.failed, 0);
}

#[test]
fn process_page_write_failure_increments_failed() {
    let args = sample_args(10, false);
    let client = FxstreetClient::new_mock();
    let raw_events = mock_page(&client, &args, 0).expect("mock range fetch should succeed");
    let mut stats = Stats::default();

    let batch = process_page(raw_events, false, &mut stats);
    let records = batch.records.expect("a write is due");
    assert_eq!(records.len(), 2);
    assert!(records.iter().all(|r| r.source == EventSource::Backfill));
    // the write to QuestDB failed (no server listening)
    let write = Err(CoreError::tcp_connect_failed("Connection refused (os error 111)"));
    record_batch_write(&mut stats, batch.count, &write);

    assert_eq!(batch.count, 2);
    assert_eq!(stats.fetched, 2);
    assert_eq!(stats.inserted, 0);
    assert_eq!(stats.failed, 2);
}

#[test]
fn fetch_outcomes_for_failures() {
    let mut stats = Stats::default();
    let transient = || Err(CoreError::api_status(503, "busy"));
    assert!(matches!(fetch_page_outcome(0, 3, transient(), &mut stats), FetchPageOutcome::RetryAfter { secs: 1 }));
    assert!(matches!(fetch_page_outcome(2, 3, transient(), &mut stats), FetchPageOutcome::RetryAfter { secs: 4 }));
    assert_eq!(stats.retried, 2);
    assert!(matches!(fetch_page_outcome(3, 3, transient(), &mut stats), FetchPageOutcome::SkipPage));
    assert_eq!(stats.retried, 2);
    match fetch_page_outcome(0, 3, Err(CoreError::api_status(401, "no")), &mut stats) {
        FetchPageOutcome::Abort(m) => assert_eq!(m, "Non-retryable API error: External API error: status 401: no"),
        other => panic!("{:?}", other),
    }
}

fn expect_fetch(action: BackfillAction, skip: usize, take: usize) {
    match action {
        BackfillAction::FetchPage(p) => assert_eq!(p, Page { skip, take }),
        other => panic!("expected a fetch, got {:?}", other),
    }
}

#[test]
fn backfill_run_pages_until_a_short_page() {
    let args = sample_args(2, false);
    let client = FxstreetClient::new_mock();
    let (mut run, first) = BackfillRun::start(&args, MAX_RETRIES);
    expect_fetch(first, 0, 2);
    // a full first page: write it
    let action = run.step(BackfillEvent::Fetched(mock_page(&client, &args, 0)));
    match action {
        BackfillAction::WriteBatch(records) => assert_eq!(records.len(), 2),
        other => panic!("{:?}", other),
    }
    assert_eq!(run.phase, BackfillPhase::Writing { count: 2 });
    // written: next page
    expect_fetch(run.step(BackfillEvent::Written(Ok(()))), 2, 2);
    // the mock's second page is empty: done
    let action = run.step(BackfillEvent::Fetched(mock_page(&client, &args, 2)));
    assert!(matches!(action, BackfillAction::Finish));
    assert_eq!(run.stats, Stats { fetched: 2, inserted: 2, failed: 0, retried: 0 });
}

#[test]
fn backfill_run_retries_then_skips_a_page() {
    let args = sample_args(10, true);
    let (mut run, _) = BackfillRun::start(&args, 2);
    let busy = || BackfillEvent::Fetched(Err(CoreError::api_status(429, "")));
    assert!(matches!(run.step(busy()), BackfillAction::Wait { secs: 1 }));
    expect_fetch(run.step(BackfillEvent::Waited), 0, 10);
    assert!(matches!(run.step(busy()), BackfillAction::Wait { secs: 2 }));
    expect_fetch(run.step(BackfillEvent::Waited), 0, 10);
    // no retries left: the page is skipped and counted as failed
    expect_fetch(run.step(busy()), 10, 10);
    assert_eq!(run.stats, Stats { fetched: 0, inserted: 0, failed: 10, retried: 2 });
    assert_eq!(run.attempt, 0);
    // a dry run counts a short page and finishes without writing
    let client = FxstreetClient::new_mock();
    let page = mock_page(&client, &args, 0);
    assert!(matches!(run.step(BackfillEvent::Fetched(page)), BackfillAction::Finish));
    assert_eq!(run.stats, Stats { fetched: 2, inserted: 0, failed: 10, retried: 2 });
}

#[test]
fn backfill_run_aborts_on_client_errors() {
    let args = sample_args(10, false);
    let (mut run, _) = BackfillRun::start(&args, 3);
    match run.step(BackfillEvent::Fetched(Err(CoreError::api_status(403, "denied")))) {
        BackfillAction::Abort(m) => assert_eq!(m, "Non-retryable API error: External API error: status 403: denied"),
        other => panic!("{:?}", other),
    }
    assert_eq!(run.phase, BackfillPhase::Aborted);
}

#[test]
fn backfill_run_counts_failed_writes() {
    let args = sample_args(2, false);
    let client = FxstreetClient::new_mock();
    let (mut run, _) = BackfillRun::start(&args, 3);
    let _ = run.step(BackfillEvent::Fetched(mock_page(&client, &args, 0)));
    expect_fetch(run.step(BackfillEvent::Written(Err(CoreError::tcp_write_failed("reset")))), 2, 2);
    assert_eq!(run.stats, Stats { fetched: 2, inserted: 0, failed: 2, retried: 0 });
}

#[test]
fn summary_report() {
    let stats = Stats { fetched: 12, inserted: 10, failed: 2, retried: 1 };
    assert_eq!(
        print_summary(&stats, 1234),
        "\n=== Backfill Summary ===\nfetched: 12\ninserted: 10\nfailed: 2\nretried: 1\nelapsed_ms: 1234\n========================\n\n"
    );
}

#[test]
fn cli_test_mode_event() {
    let e = test_mode_event();
    assert_eq!(e.event_id, "cli-test-dummy");
    assert_eq!(e.title, "Mock Event cli-test-dummy");
    assert_eq!(e.source, EventSource::Backfill);
}

#[test]
fn cli_test_mode_writes_nothing_in_a_dry_run() {
    match run_test_mode(true) {
        TestModeAction::Report(r) => assert_eq!(
            r,
            "\n=== Test Mode (Dry Run) ===\ndummy_events: 1\ninserted: 0\n===========================\n\n"
        ),
        other => panic!("{:?}", other),
    }
    match run_test_mode(false) {
        TestModeAction::Write(e) => {
            assert_eq!(e.event_id, "cli-test-dummy");
            assert_eq!(e.source, EventSource::Backfill);
            assert_eq!(e.country.as_deref(), Some("US"));
            assert_eq!(e.actual.as_deref(), Some("1.1"));
        }
        other => panic!("{:?}", other),
    }
}

#[test]
fn cli_test_mode_outcomes() {
    assert_eq!(test_mode_written(&Ok(())), Ok("\n=== Test Mode ===\ninserted: 1 dummy event\n==================\n".to_string()));
    assert_eq!(
        test_mode_written(&Err(CoreError::tcp_connect_failed("refused"))),
        Err("Failed to write dummy event to QuestDB: QuestDB operation failed: TCP connection failed: refused".to_string())
    );
}

#[test]
fn room_is_needed_only_where_counts_grow() {
    let run = BackfillRun {
        page_size: 10,
        dry_run: false,
        max_retries: 3,
        skip: usize::MAX,
        attempt: 0,
        stats: Stats { fetched: 0, inserted: 0, failed: usize::MAX, retried: 0 },
        phase: BackfillPhase::Waiting,
    };
    assert!(run.can_step(&BackfillEvent::Waited));
    let fetching = BackfillRun { phase: BackfillPhase::Fetching, ..run };
    // an empty page only finishes the run
    assert!(fetching.can_step(&BackfillEvent::Fetched(Ok(Vec::new()))));
    // a client error only aborts it
    assert!(fetching.can_step(&BackfillEvent::Fetched(Err(CoreError::api_status(404, "")))));
    // a page skipped after the retries would overflow the failed count
    let exhausted = BackfillRun { attempt: 3, ..fetching };
    assert!(!exhausted.can_step(&BackfillEvent::Fetched(Err(CoreError::api_status(503, "")))));
}
