//! Historical backfill: the decisions of paging through a date range, retrying transient
//! failures, converting and writing each page, and counting what happened.
//!
//! The fetching, waiting and writing themselves are done by the caller: `BackfillRun::step`
//! takes what the last action came to and says what to do next.

use vstd::prelude::*;
use crate::error::CoreError;
use crate::fxstreet::{is_mock_record, mock_event, Page};
use crate::models::{EconomicEvent, EventSource, FxEventRaw};
use crate::questdb::pow2_u64;
use crate::text::{push_decimal, spec_decimal};
use crate::time::{is_later, utc_now, UtcTimestamp};
use vstd::arithmetic::power2::pow2;
use vstd::std_specs::iter::IteratorSpec;

verus! {

/// Events per page when none is given.
pub const DEFAULT_PAGE_SIZE: usize = 100;

/// Retries of a failed page fetch before the page is skipped.
pub const MAX_RETRIES: usize = 3;

/// What the backfill is asked to do.
#[derive(Clone, Copy, Debug, PartialEq, Eq, Structural)]
pub struct Args {
    /// Start of the range.
    pub from: UtcTimestamp,
    /// End of the range.
    pub to: UtcTimestamp,
    /// Events per page.
    pub page_size: usize,
    /// Fetch, but write nothing.
    pub dry_run: bool,
    /// Write one made-up event instead of fetching.
    pub test: bool,
}

/// The message of the error for a range that ends before it starts.
pub open spec fn invalid_range_message() -> Seq<char> {
    "Invalid range: --from must be earlier than or equal to --to"@
}

/// Accepts a range whose start is not later than its end.
pub fn validate_date_range(from: UtcTimestamp, to: UtcTimestamp) -> (res: Result<(), String>)
    ensures
        res is Ok <==> !is_later(from@, to@),
        res matches Err(m) ==> m@ == invalid_range_message(),
{
    if from.is_later_than(&to) {
        return Err(String::from_str("Invalid range: --from must be earlier than or equal to --to"));
    }
    Ok(())
}

/// Counts of what the backfill did.
#[derive(Clone, Copy, Debug, PartialEq, Eq, Structural)]
pub struct Stats {
    /// Events fetched.
    pub fetched: usize,
    /// Events written.
    pub inserted: usize,
    /// Events lost: in pages that could not be fetched, or in batches that could not be written.
    pub failed: usize,
    /// Fetches retried.
    pub retried: usize,
}

impl Stats {
    /// All counts zero.
    pub fn new() -> (res: Stats)
        ensures
            res == (Stats { fetched: 0, inserted: 0, failed: 0, retried: 0 }),
    {
        Stats { fetched: 0, inserted: 0, failed: 0, retried: 0 }
    }
}

impl Default for Stats {
    fn default() -> (res: Stats)
        ensures
            res == (Stats { fetched: 0, inserted: 0, failed: 0, retried: 0 }),
    {
        Stats::new()
    }
}

/// The report printed at the end of a backfill.
pub open spec fn summary_text(stats: Stats, elapsed_ms: nat) -> Seq<char> {
    "\n=== Backfill Summary ===\nfetched: "@ + spec_decimal(stats.fetched as nat)
        + "\ninserted: "@ + spec_decimal(stats.inserted as nat) + "\nfailed: "@ + spec_decimal(
        stats.failed as nat,
    ) + "\nretried: "@ + spec_decimal(stats.retried as nat) + "\nelapsed_ms: "@ + spec_decimal(
        elapsed_ms,
    ) + "\n========================\n\n"@
}

/// The report printed at the end of a backfill that took `elapsed_ms` milliseconds.
pub fn print_summary(stats: &Stats, elapsed_ms: u128) -> (res: String)
    ensures
        res@ == summary_text(*stats, elapsed_ms as nat),
{
    let mut out = String::from_str("\n=== Backfill Summary ===\nfetched: ");
    push_decimal(&mut out, stats.fetched as u128);
    out.append("\ninserted: ");
    push_decimal(&mut out, stats.inserted as u128);
    out.append("\nfailed: ");
    push_decimal(&mut out, stats.failed as u128);
    out.append("\nretried: ");
    push_decimal(&mut out, stats.retried as u128);
    out.append("\nelapsed_ms: ");
    push_decimal(&mut out, elapsed_ms);
    out.append("\n========================\n\n");
    out
}

/// The id of the record that test mode writes.
pub const TEST_EVENT_ID: &'static str = "cli-test-dummy";

/// The made-up record of test mode: the mock event `cli-test-dummy` at the current instant,
/// from the backfill, ingested now.
pub fn test_mode_event() -> (res: EconomicEvent)
    ensures
        is_mock_record(res, TEST_EVENT_ID@, EventSource::Backfill),
        res.event_time@.1 < 1_000_000_000,
        res.ingested_at@.1 < 1_000_000_000,
{
    let now = utc_now();
    let raw = mock_event(TEST_EVENT_ID, now);
    EconomicEvent::from_raw(raw, EventSource::Backfill)
}

/// The report of a dry run in test mode.
pub open spec fn test_mode_dry_run_report() -> Seq<char> {
    "\n=== Test Mode (Dry Run) ===\ndummy_events: 1\ninserted: 0\n===========================\n\n"@
}

/// The report of test mode after the made-up record was written.
pub open spec fn test_mode_report() -> Seq<char> {
    "\n=== Test Mode ===\ninserted: 1 dummy event\n==================\n"@
}

/// The message of the error for a made-up record that could not be written.
pub open spec fn test_mode_write_error(e: CoreError) -> Seq<char> {
    "Failed to write dummy event to QuestDB: "@ + e.text()
}

/// What test mode does first.
#[derive(Debug)]
pub enum TestModeAction {
    /// Done without writing: print this report and succeed.
    Report(String),
    /// Write this record, then hand the outcome to `test_mode_written`.
    Write(EconomicEvent),
}

/// Test mode: in a dry run the made-up record is only built and the dry-run report printed;
/// otherwise the record is written.
pub fn run_test_mode(dry_run: bool) -> (res: TestModeAction)
    ensures
        dry_run ==> (res matches TestModeAction::Report(r) && r@ == test_mode_dry_run_report()),
        !dry_run ==> (res matches TestModeAction::Write(e) && is_mock_record(
            e,
            TEST_EVENT_ID@,
            EventSource::Backfill,
        ) && e.event_time@.1 < 1_000_000_000 && e.ingested_at@.1 < 1_000_000_000),
{
    let event = test_mode_event();
    if dry_run {
        TestModeAction::Report(
            String::from_str(
                "\n=== Test Mode (Dry Run) ===\ndummy_events: 1\ninserted: 0\n===========================\n\n",
            ),
        )
    } else {
        TestModeAction::Write(event)
    }
}

/// The end of test mode once the made-up record's write came to `written`: the report to print,
/// or the error to stop with.
pub fn test_mode_written(written: &Result<(), CoreError>) -> (res: Result<String, String>)
    ensures
        match written {
            Ok(_) => res matches Ok(r) && r@ == test_mode_report(),
            Err(e) => res matches Err(m) && m@ == test_mode_write_error(*e),
        },
{
    match written {
        Ok(()) => Ok(
            String::from_str("\n=== Test Mode ===\ninserted: 1 dummy event\n==================\n"),
        ),
        Err(e) => {
            let mut m = String::from_str("Failed to write dummy event to QuestDB: ");
            m.append(e.message().as_str());
            Err(m)
        },
    }
}

// ---------------------------------------------------------------------------------------------
// Fetching a page
// ---------------------------------------------------------------------------------------------

/// What a fetch attempt comes to.
#[derive(Debug)]
pub enum FetchPageOutcome {
    /// The page's events.
    Page(Vec<FxEventRaw>),
    /// A transient failure with retries left: wait this many seconds, then fetch again.
    RetryAfter { secs: u64 },
    /// A transient failure with no retries left: skip the page.
    SkipPage,
    /// A failure that retrying cannot mend: stop the backfill with this message.
    Abort(String),
}

/// The message that stops a backfill on error `e`.
pub open spec fn abort_message(e: CoreError) -> Seq<char> {
    "Non-retryable API error: "@ + e.text()
}

/// Attempt `attempt` (counted from `0`) of fetching a page came to `result`: a page is taken; a
/// transient failure is retried after `2^attempt` seconds while fewer than `max_retries` retries
/// were made (counting the retry), and skips the page otherwise; any other failure aborts.
pub fn fetch_page_outcome(
    attempt: usize,
    max_retries: usize,
    result: Result<Vec<FxEventRaw>, CoreError>,
    stats: &mut Stats,
) -> (res: FetchPageOutcome)
    requires
        attempt <= max_retries,
        (result matches Err(e) && e.retryable() && attempt < max_retries) ==> attempt < 64
            && old(stats).retried < usize::MAX,
    ensures
        match result {
            Ok(events) => res == FetchPageOutcome::Page(events) && *final(stats) == *old(stats),
            Err(e) => if e.retryable() && attempt < max_retries {
                res == (FetchPageOutcome::RetryAfter { secs: pow2(attempt as nat) as u64 })
                    && *final(stats) == (Stats { retried: (old(stats).retried + 1) as usize, ..*old(stats) })
            } else if e.retryable() {
                res == FetchPageOutcome::SkipPage && *final(stats) == *old(stats)
            } else {
                res matches FetchPageOutcome::Abort(m) && m@ == abort_message(e) && *final(stats)
                    == *old(stats)
            },
        },
{
    match result {
        Ok(events) => FetchPageOutcome::Page(events),
        Err(e) => {
            if e.is_retryable() && attempt < max_retries {
                stats.retried = stats.retried + 1;
                FetchPageOutcome::RetryAfter { secs: pow2_u64(attempt as u32) }
            } else if e.is_retryable() {
                FetchPageOutcome::SkipPage
            } else {
                let mut m = String::from_str("Non-retryable API error: ");
                m.append(e.message().as_str());
                FetchPageOutcome::Abort(m)
            }
        },
    }
}

// ---------------------------------------------------------------------------------------------
// Processing a page
// ---------------------------------------------------------------------------------------------

/// A fetched page, counted and, unless in a dry run, converted into records to write.
#[derive(Debug)]
pub struct PageBatch {
    /// Events on the page.
    pub count: usize,
    /// The records to write; `None` in a dry run.
    pub records: Option<Vec<EconomicEvent>>,
}

/// Whether `records` are the records of `raws` from the backfill, in order, each stamped with a
/// reading of the system clock (whose nanoseconds, unlike those of an event time in a leap
/// second, are always below one second).
pub open spec fn backfill_records(records: Seq<EconomicEvent>, raws: Seq<FxEventRaw>) -> bool {
    &&& records.len() == raws.len()
    &&& forall|i: int| 0 <= i < raws.len() ==> #[trigger] records[i].built_from(
        raws[i],
        EventSource::Backfill,
    ) && records[i].ingested_at@.1 < 1_000_000_000
}

/// The records of `raws`, from the backfill, each ingested now.
pub fn to_backfill_records(raws: Vec<FxEventRaw>) -> (res: Vec<EconomicEvent>)
    ensures
        backfill_records(res@, raws@),
{
    let ghost src = raws@;
    let mut out: Vec<EconomicEvent> = Vec::new();
    for raw in it: raws.into_iter()
        invariant
            it.seq() == src,
            out@.len() == it.index(),
            forall|i: int| 0 <= i < out@.len() ==> #[trigger] out@[i].built_from(
                src[i],
                EventSource::Backfill,
            ),
            forall|i: int| 0 <= i < out@.len() ==> (#[trigger] out@[i]).ingested_at@.1
                < 1_000_000_000,
    {
        proof {
            assert(raw == src[it.index() as int]);
        }
        out.push(EconomicEvent::from_raw(raw, EventSource::Backfill));
    }
    out
}

/// Counts a fetched page and, unless in a dry run, converts it into records to write.
pub fn process_page(raw_events: Vec<FxEventRaw>, dry_run: bool, stats: &mut Stats) -> (res:
    PageBatch)
    requires
        old(stats).fetched + raw_events@.len() <= usize::MAX,
    ensures
        res.count == raw_events@.len(),
        *final(stats) == (Stats { fetched: (old(stats).fetched + res.count) as usize, ..*old(stats) }),
        dry_run ==> res.records is None,
        !dry_run ==> (res.records matches Some(r) && backfill_records(r@, raw_events@)),
{
    let count = raw_events.len();
    stats.fetched = stats.fetched + count;
    if dry_run {
        return PageBatch { count, records: None };
    }
    let records = to_backfill_records(raw_events);
    PageBatch { count, records: Some(records) }
}

/// Counts the outcome of writing a batch of `count` records: all inserted, or all failed.
pub fn record_batch_write(stats: &mut Stats, count: usize, result: &Result<(), CoreError>)
    requires
        result is Ok ==> old(stats).inserted + count <= usize::MAX,
        result is Err ==> old(stats).failed + count <= usize::MAX,
    ensures
        result is Ok ==> *final(stats) == (Stats {
            inserted: (old(stats).inserted + count) as usize,
            ..*old(stats)
        }),
        result is Err ==> *final(stats) == (Stats {
            failed: (old(stats).failed + count) as usize,
            ..*old(stats)
        }),
{
    match result {
        Ok(()) => {
            stats.inserted = stats.inserted + count;
        },
        Err(_) => {
            stats.failed = stats.failed + count;
        },
    }
}

// ---------------------------------------------------------------------------------------------
// The paging loop
// ---------------------------------------------------------------------------------------------

/// Where a backfill stands.
#[derive(Clone, Copy, Debug, PartialEq, Eq, Structural)]
pub enum BackfillPhase {
    /// A page fetch is under way.
    Fetching,
    /// Waiting before a retry.
    Waiting,
    /// A batch of `count` records is being written.
    Writing { count: usize },
    /// The backfill finished; `stats` is its result.
    Finished,
    /// The backfill stopped on an error.
    Aborted,
}

/// What the caller does next.
#[derive(Debug)]
pub enum BackfillAction {
    /// Fetch this page of the range.
    FetchPage(Page),
    /// Wait this many seconds.
    Wait { secs: u64 },
    /// Write these records.
    WriteBatch(Vec<EconomicEvent>),
    /// Done: report the counts.
    Finish,
    /// Stop with this error message.
    Abort(String),
}

/// What the caller's last action came to.
#[derive(Debug)]
pub enum BackfillEvent {
    Fetched(Result<Vec<FxEventRaw>, CoreError>),
    Waited,
    Written(Result<(), CoreError>),
}

/// A backfill under way.
#[derive(Debug)]
pub struct BackfillRun {
    pub page_size: usize,
    pub dry_run: bool,
    pub max_retries: usize,
    /// Events before the current page.
    pub skip: usize,
    /// Failed attempts at the current page.
    pub attempt: usize,
    pub stats: Stats,
    pub phase: BackfillPhase,
}

impl BackfillRun {
    /// The invariant of a run: the attempts at a page never exceed the retries, and a dry run
    /// never writes.
    pub open spec fn wf(&self) -> bool {
        &&& self.attempt <= self.max_retries
        &&& self.dry_run ==> !(self.phase is Writing)
    }

    /// The fetch of the current page.
    pub open spec fn current_page(&self) -> Page {
        Page { skip: self.skip, take: self.page_size }
    }

    /// Whether the counters and the offset have room for what `event` adds to them (and the
    /// backoff exponent is small enough where a retry is due).
    pub open spec fn has_room_for(&self, event: BackfillEvent) -> bool {
        match event {
            BackfillEvent::Fetched(Ok(events)) => events@.len() > 0 ==> {
                &&& self.stats.fetched + events@.len() <= usize::MAX
                &&& (self.dry_run && events@.len() >= self.page_size) ==> self.skip
                    + self.page_size <= usize::MAX
            },
            BackfillEvent::Fetched(Err(e)) => e.retryable() ==> if self.attempt < self.max_retries {
                self.attempt < 64 && self.stats.retried < usize::MAX
            } else {
                self.stats.failed + self.page_size <= usize::MAX && self.skip + self.page_size
                    <= usize::MAX
            },
            BackfillEvent::Waited => true,
            BackfillEvent::Written(r) => match self.phase {
                BackfillPhase::Writing { count } => {
                    &&& match r {
                        Ok(_) => self.stats.inserted + count <= usize::MAX,
                        Err(_) => self.stats.failed + count <= usize::MAX,
                    }
                    &&& count >= self.page_size ==> self.skip + self.page_size <= usize::MAX
                },
                _ => true,
            },
        }
    }

    /// Whether `event` answers the action that `self` is waiting on.
    pub open spec fn expects(&self, event: BackfillEvent) -> bool {
        match event {
            BackfillEvent::Fetched(_) => self.phase == BackfillPhase::Fetching,
            BackfillEvent::Waited => self.phase == BackfillPhase::Waiting,
            BackfillEvent::Written(_) => self.phase is Writing,
        }
    }

    /// Whether `step` may take `event` now: the run is well formed, waits on that kind of
    /// event, and its counters have room for it.
    pub fn can_step(&self, event: &BackfillEvent) -> (res: bool)
        ensures
            res == (self.wf() && self.expects(*event) && self.has_room_for(*event)),
    {
        let wf = self.attempt <= self.max_retries && !(self.dry_run && matches!(
            self.phase,
            BackfillPhase::Writing { .. }
        ));
        let expects = match event {
            BackfillEvent::Fetched(_) => matches!(self.phase, BackfillPhase::Fetching),
            BackfillEvent::Waited => matches!(self.phase, BackfillPhase::Waiting),
            BackfillEvent::Written(_) => matches!(self.phase, BackfillPhase::Writing { .. }),
        };
        let skip_room = self.skip <= usize::MAX - self.page_size;
        let room = match event {
            BackfillEvent::Fetched(Ok(events)) => events.len() == 0 || (self.stats.fetched
                <= usize::MAX - events.len() && (!(self.dry_run && events.len() >= self.page_size)
                || skip_room)),
            BackfillEvent::Fetched(Err(e)) => !e.is_retryable() || if self.attempt
                < self.max_retries {
                self.attempt < 64 && self.stats.retried < usize::MAX
            } else {
                self.stats.failed <= usize::MAX - self.page_size && skip_room
            },
            BackfillEvent::Waited => true,
            BackfillEvent::Written(r) => match self.phase {
                BackfillPhase::Writing { count } => (match r {
                    Ok(_) => self.stats.inserted <= usize::MAX - count,
                    Err(_) => self.stats.failed <= usize::MAX - count,
                }) && (count < self.page_size || skip_room),
                _ => true,
            },
        };
        wf && expects && room
    }

    /// Starts a backfill of `args` with `max_retries` retries per page: fetch the first page.
    pub fn start(args: &Args, max_retries: usize) -> (res: (BackfillRun, BackfillAction))
        ensures
            res.0.wf(),
            res.0.page_size == args.page_size,
            res.0.dry_run == args.dry_run,
            res.0.max_retries == max_retries,
            res.0.skip == 0,
            res.0.attempt == 0,
            res.0.stats == (Stats { fetched: 0, inserted: 0, failed: 0, retried: 0 }),
            res.0.phase == BackfillPhase::Fetching,
            res.1 == BackfillAction::FetchPage(Page { skip: 0, take: args.page_size }),
    {
        let run = BackfillRun {
            page_size: args.page_size,
            dry_run: args.dry_run,
            max_retries,
            skip: 0,
            attempt: 0,
            stats: Stats::new(),
            phase: BackfillPhase::Fetching,
        };
        (run, BackfillAction::FetchPage(Page { skip: 0, take: args.page_size }))
    }

    /// After a page of `count` events was handled: a short page is the last one; otherwise go on
    /// to the next.
    fn after_page(&mut self, count: usize) -> (res: BackfillAction)
        requires
            count >= old(self).page_size ==> old(self).skip + old(self).page_size <= usize::MAX,
        ensures
            count < old(self).page_size ==> final(self).phase == BackfillPhase::Finished
                && res == BackfillAction::Finish && final(self).skip == old(self).skip,
            count >= old(self).page_size ==> final(self).phase == BackfillPhase::Fetching
                && final(self).skip == old(self).skip + old(self).page_size && res
                == BackfillAction::FetchPage(final(self).current_page()),
            final(self).attempt == old(self).attempt,
            final(self).stats == old(self).stats,
            final(self).page_size == old(self).page_size,
            final(self).dry_run == old(self).dry_run,
            final(self).max_retries == old(self).max_retries,
    {
        if count < self.page_size {
            self.phase = BackfillPhase::Finished;
            BackfillAction::Finish
        } else {
            self.skip = self.skip + self.page_size;
            self.phase = BackfillPhase::Fetching;
            BackfillAction::FetchPage(Page { skip: self.skip, take: self.page_size })
        }
    }

    /// Takes what the last action came to and says what to do next.
    ///
    /// - A fetched page that is empty finishes the backfill. Otherwise its events are counted;
    ///   in a dry run the page is done, else its records are written.
    /// - A fetch that failed transiently is retried after `2^attempt` seconds while retries are
    ///   left; with none left the page is skipped and all its `page_size` events count as
    ///   failed. Any other failure aborts.
    /// - A written batch counts as inserted, a batch that failed to be written as failed; the
    ///   page is then done.
    /// - A done page shorter than `page_size` finishes the backfill; otherwise the next page is
    ///   fetched.
    pub fn step(&mut self, event: BackfillEvent) -> (res: BackfillAction)
        requires
            old(self).wf(),
            old(self).expects(event),
            old(self).has_room_for(event),
        ensures
            final(self).wf(),
            final(self).page_size == old(self).page_size,
            final(self).dry_run == old(self).dry_run,
            final(self).max_retries == old(self).max_retries,
            // a dry run never writes
            old(self).dry_run ==> !(res is WriteBatch),
            // counts only grow, and the range is only walked forward
            final(self).stats.fetched >= old(self).stats.fetched,
            final(self).stats.inserted >= old(self).stats.inserted,
            final(self).stats.failed >= old(self).stats.failed,
            final(self).stats.retried >= old(self).stats.retried,
            final(self).skip >= old(self).skip,
            // a dry run inserts nothing
            old(self).dry_run ==> final(self).stats.inserted == old(self).stats.inserted,
            res is WriteBatch <==> final(self).phase is Writing,
            res is Finish <==> final(self).phase == BackfillPhase::Finished,
            res is Abort <==> final(self).phase == BackfillPhase::Aborted,
            res is Wait <==> final(self).phase == BackfillPhase::Waiting,
            res is FetchPage <==> final(self).phase == BackfillPhase::Fetching,
            res matches BackfillAction::FetchPage(p) ==> p == final(self).current_page(),
            match event {
                BackfillEvent::Fetched(Ok(events)) => if events@.len() == 0 {
                    res == BackfillAction::Finish && final(self).stats == old(self).stats
                } else {
                    &&& final(self).stats == (Stats {
                        fetched: (old(self).stats.fetched + events@.len()) as usize,
                        ..old(self).stats
                    })
                    &&& final(self).attempt == 0
                    &&& if old(self).dry_run {
                        // in a dry run the page is done at once: a short page is the last one,
                        // a full page leads on to the next
                        if events@.len() < old(self).page_size {
                            &&& res == BackfillAction::Finish
                            &&& final(self).phase == BackfillPhase::Finished
                            &&& final(self).skip == old(self).skip
                        } else {
                            &&& res == BackfillAction::FetchPage(Page {
                                skip: (old(self).skip + old(self).page_size) as usize,
                                take: old(self).page_size,
                            })
                            &&& final(self).phase == BackfillPhase::Fetching
                            &&& final(self).skip == old(self).skip + old(self).page_size
                        }
                    } else {
                        &&& final(self).phase == (BackfillPhase::Writing { count: events@.len() as usize })
                        &&& final(self).skip == old(self).skip
                        &&& res matches BackfillAction::WriteBatch(r) && backfill_records(r@, events@)
                    }
                },
                BackfillEvent::Fetched(Err(e)) => if e.retryable() && old(self).attempt < old(self).max_retries {
                    &&& res == (BackfillAction::Wait { secs: pow2(old(self).attempt as nat) as u64 })
                    &&& final(self).attempt == old(self).attempt + 1
                    &&& final(self).skip == old(self).skip
                    &&& final(self).stats == (Stats {
                        retried: (old(self).stats.retried + 1) as usize,
                        ..old(self).stats
                    })
                } else if e.retryable() {
                    &&& final(self).attempt == 0
                    &&& final(self).skip == old(self).skip + old(self).page_size
                    &&& final(self).stats == (Stats {
                        failed: (old(self).stats.failed + old(self).page_size) as usize,
                        ..old(self).stats
                    })
                    &&& res == BackfillAction::FetchPage(final(self).current_page())
                } else {
                    &&& res matches BackfillAction::Abort(m) && m@ == abort_message(e)
                    &&& final(self).stats == old(self).stats
                },
                BackfillEvent::Waited => {
                    &&& res == BackfillAction::FetchPage(old(self).current_page())
                    &&& final(self).stats == old(self).stats
                    &&& final(self).skip == old(self).skip
                    &&& final(self).attempt == old(self).attempt
                },
                BackfillEvent::Written(r) => {
                    let count = old(self).phase->count;
                    &&& final(self).stats == (match r {
                        Ok(_) => Stats { inserted: (old(self).stats.inserted + count) as usize, ..old(self).stats },
                        Err(_) => Stats { failed: (old(self).stats.failed + count) as usize, ..old(self).stats },
                    })
                    &&& final(self).attempt == old(self).attempt
                    &&& if count < old(self).page_size {
                        &&& res == BackfillAction::Finish
                        &&& final(self).phase == BackfillPhase::Finished
                        &&& final(self).skip == old(self).skip
                    } else {
                        &&& res == BackfillAction::FetchPage(Page {
                            skip: (old(self).skip + old(self).page_size) as usize,
                            take: old(self).page_size,
                        })
                        &&& final(self).phase == BackfillPhase::Fetching
                        &&& final(self).skip == old(self).skip + old(self).page_size
                    }
                },
            },
    {
        match event {
            BackfillEvent::Fetched(result) => {
                let attempt = self.attempt;
                let max_retries = self.max_retries;
                let outcome = fetch_page_outcome(attempt, max_retries, result, &mut self.stats);
                match outcome {
                    FetchPageOutcome::Page(events) => {
                        self.attempt = 0;
                        if events.len() == 0 {
                            self.phase = BackfillPhase::Finished;
                            return BackfillAction::Finish;
                        }
                        let batch = process_page(events, self.dry_run, &mut self.stats);
                        match batch.records {
                            Some(records) => {
                                self.phase = BackfillPhase::Writing { count: batch.count };
                                BackfillAction::WriteBatch(records)
                            },
                            None => self.after_page(batch.count),
                        }
                    },
                    FetchPageOutcome::RetryAfter { secs } => {
                        self.attempt = self.attempt + 1;
                        self.phase = BackfillPhase::Waiting;
                        BackfillAction::Wait { secs }
                    },
                    FetchPageOutcome::SkipPage => {
                        self.stats.failed = self.stats.failed + self.page_size;
                        self.skip = self.skip + self.page_size;
                        self.attempt = 0;
                        self.phase = BackfillPhase::Fetching;
                        BackfillAction::FetchPage(Page { skip: self.skip, take: self.page_size })
                    },
                    FetchPageOutcome::Abort(m) => {
                        self.phase = BackfillPhase::Aborted;
                        BackfillAction::Abort(m)
                    },
                }
            },
            BackfillEvent::Waited => {
                self.phase = BackfillPhase::Fetching;
                BackfillAction::FetchPage(Page { skip: self.skip, take: self.page_size })
            },
            BackfillEvent::Written(result) => {
                let count = match self.phase {
                    BackfillPhase::Writing { count } => count,
                    _ => 0,
                };
                record_batch_write(&mut self.stats, count, &result);
                self.after_page(count)
            },
        }
    }
}

} // verus!
