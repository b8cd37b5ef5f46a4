use album_fetch::fetch::{check_url, FetchEvent, FetchMachine, FetchPhase};
use album_fetch::outcome::{ErrorKind, FsProbe, Outcome};
use album_fetch::pipeline::{run_batch, run_trace};
use album_fetch::prepare::{prepare_plan, DirAction};
use album_fetch::sched::Scheduler;

const GOOD_URL: &str = "https://example.com/file.bin";
const BAD_URL: &str = "not a url";

#[test]
fn url_check_tells_good_from_bad() {
    assert!(check_url(GOOD_URL).is_ok());
    assert_eq!(check_url(BAD_URL).err(), Some(ErrorKind::UrlInvalid));
    assert_eq!(check_url("").err(), Some(ErrorKind::UrlInvalid));
}

#[test]
fn existing_file_is_skipped_without_network() {
    // P2: a final path already holding a regular file ends the fetch at the
    // probe; no transfer is ever ordered.
    let mut m = FetchMachine::new();
    let start = m.step(&FetchEvent::Probed(FsProbe::IsFile), GOOD_URL);
    assert!(start.is_none());
    assert_eq!(m.outcome, Some(Outcome::Skipped));
    assert!(!m.temp_exists);
    assert!(!m.renamed);
}

#[test]
fn existing_directory_fails_and_is_untouched() {
    // P3: a directory at the final path is refused and left alone.
    let m = run_trace(GOOD_URL, &vec![FetchEvent::Probed(FsProbe::IsDir)]);
    assert_eq!(m.outcome, Some(Outcome::Failed(ErrorKind::DestinationIsDirectory)));
    assert!(!m.temp_exists);
    assert!(!m.renamed);
}

#[test]
fn malformed_url_fails_before_any_transfer() {
    let mut m = FetchMachine::new();
    let start = m.step(&FetchEvent::Probed(FsProbe::Missing), BAD_URL);
    assert!(start.is_none());
    assert_eq!(m.outcome, Some(Outcome::Failed(ErrorKind::UrlInvalid)));
    assert!(!m.temp_exists);
}

#[test]
fn valid_url_begins_transfer() {
    let mut m = FetchMachine::new();
    let start = m.step(&FetchEvent::Probed(FsProbe::Missing), GOOD_URL);
    let url = start.expect("a transfer should begin");
    assert_eq!(url.as_str(), GOOD_URL);
    assert_eq!(m.phase, FetchPhase::Streaming);
    assert!(m.temp_exists);
}

#[test]
fn interrupted_stream_leaves_nothing() {
    // P4: a mid-stream network failure ends in cleanup; no temporary file
    // remains and the final path was never created.
    let events = vec![
        FetchEvent::Probed(FsProbe::Missing),
        FetchEvent::Chunk(4),
        FetchEvent::Chunk(2),
        FetchEvent::NetFailed,
        FetchEvent::Removed(true),
    ];
    let m = run_trace(GOOD_URL, &events);
    assert_eq!(m.outcome, Some(Outcome::Failed(ErrorKind::NetworkFailure)));
    assert!(!m.temp_exists);
    assert!(!m.renamed);
    assert_eq!(m.written, 6);
}

#[test]
fn full_fetch_succeeds_and_counts_bytes() {
    let events = vec![
        FetchEvent::Probed(FsProbe::Missing),
        FetchEvent::Chunk(10),
        FetchEvent::Chunk(20),
        FetchEvent::StreamEnded,
        FetchEvent::Renamed,
        FetchEvent::MtimeSet,
    ];
    let m = run_trace(GOOD_URL, &events);
    assert_eq!(m.outcome, Some(Outcome::Succeeded));
    assert!(!m.temp_exists);
    assert!(m.renamed);
    assert_eq!(m.written, 30);
}

#[test]
fn progress_counter_saturates_instead_of_wrapping() {
    let events = vec![
        FetchEvent::Probed(FsProbe::Missing),
        FetchEvent::Chunk(u64::MAX),
        FetchEvent::Chunk(5),
    ];
    let m = run_trace(GOOD_URL, &events);
    assert_eq!(m.written, u64::MAX);
}

#[test]
fn write_failure_cleans_up_with_io_cause() {
    let events = vec![
        FetchEvent::Probed(FsProbe::Missing),
        FetchEvent::WriteFailed,
        FetchEvent::Removed(true),
    ];
    let m = run_trace(GOOD_URL, &events);
    assert_eq!(m.outcome, Some(Outcome::Failed(ErrorKind::IoFailure)));
    assert!(!m.temp_exists);
}

#[test]
fn failed_removal_leaves_temp_recorded() {
    let events = vec![
        FetchEvent::Probed(FsProbe::Missing),
        FetchEvent::NetFailed,
        FetchEvent::Removed(false),
    ];
    let m = run_trace(GOOD_URL, &events);
    assert_eq!(m.outcome, Some(Outcome::Failed(ErrorKind::NetworkFailure)));
    assert!(m.temp_exists);
}

#[test]
fn probe_permission_denied_is_metadata_failure() {
    let m = run_trace(GOOD_URL, &vec![FetchEvent::Probed(FsProbe::PermissionDenied)]);
    assert_eq!(
        m.outcome,
        Some(Outcome::Failed(ErrorKind::MetadataUnavailable { permission_denied: true }))
    );
    let m = run_trace(GOOD_URL, &vec![FetchEvent::Probed(FsProbe::OtherError)]);
    assert_eq!(
        m.outcome,
        Some(Outcome::Failed(ErrorKind::MetadataUnavailable { permission_denied: false }))
    );
}

#[test]
fn mtime_failure_after_rename_is_io_failure() {
    let events = vec![
        FetchEvent::Probed(FsProbe::Missing),
        FetchEvent::StreamEnded,
        FetchEvent::Renamed,
        FetchEvent::MtimeFailed,
        FetchEvent::Removed(false),
    ];
    let m = run_trace(GOOD_URL, &events);
    assert_eq!(m.outcome, Some(Outcome::Failed(ErrorKind::IoFailure)));
    // The rename stood; only the temporary file is gone.
    assert!(m.renamed);
    assert!(!m.temp_exists);
}

#[test]
fn events_out_of_order_change_nothing() {
    // A chunk before the probe, or anything after the end, is ignored.
    let events = vec![
        FetchEvent::Chunk(7),
        FetchEvent::Renamed,
        FetchEvent::Probed(FsProbe::IsFile),
        FetchEvent::Chunk(7),
        FetchEvent::NetFailed,
    ];
    let m = run_trace(GOOD_URL, &events);
    assert_eq!(m.outcome, Some(Outcome::Skipped));
    assert_eq!(m.written, 0);
    assert!(!m.renamed);
}

#[test]
fn scheduler_holds_the_concurrency_ceiling() {
    let mut s = Scheduler::new(5, 2);
    assert!(s.can_start());
    let a = s.start();
    assert!(s.can_start());
    let b = s.start();
    // Two in flight at the limit of two: nothing more may begin.
    assert!(!s.can_start());
    s.complete(a, Outcome::Succeeded);
    assert!(s.can_start());
    let c = s.start();
    assert!(!s.can_start());
    s.complete(b, Outcome::Skipped);
    s.complete(c, Outcome::Succeeded);
    let d = s.start();
    let e = s.start();
    s.complete(e, Outcome::Failed(ErrorKind::NetworkFailure));
    s.complete(d, Outcome::Succeeded);
    assert!(s.all_done());
    let outcomes = s.into_outcomes();
    assert_eq!(
        outcomes,
        vec![
            Outcome::Succeeded,
            Outcome::Skipped,
            Outcome::Succeeded,
            Outcome::Succeeded,
            Outcome::Failed(ErrorKind::NetworkFailure),
        ]
    );
}

fn three_item_batch() -> (Vec<String>, Vec<Vec<FetchEvent>>) {
    let urls = vec![
        String::from("https://example.com/one.bin"),
        String::from(BAD_URL),
        String::from("https://example.com/three.bin"),
    ];
    let traces = vec![
        vec![
            FetchEvent::Probed(FsProbe::Missing),
            FetchEvent::Chunk(10),
            FetchEvent::StreamEnded,
            FetchEvent::Renamed,
            FetchEvent::MtimeSet,
        ],
        vec![FetchEvent::Probed(FsProbe::Missing)],
        vec![
            FetchEvent::Probed(FsProbe::Missing),
            FetchEvent::Chunk(5),
            FetchEvent::StreamEnded,
            FetchEvent::Renamed,
            FetchEvent::MtimeSet,
        ],
    ];
    (urls, traces)
}

#[test]
fn batch_with_one_malformed_url() {
    // P7: sizes [10, 0, 5] with one malformed URL: two successes and one
    // UrlInvalid failure. The zero-size item sends no chunk at all.
    let (urls, mut traces) = three_item_batch();
    traces[2] = vec![
        FetchEvent::Probed(FsProbe::Missing),
        FetchEvent::StreamEnded,
        FetchEvent::Renamed,
        FetchEvent::MtimeSet,
    ];
    let outcomes = run_batch(&urls, &traces, 8).expect("all traces end");
    assert_eq!(
        outcomes,
        vec![
            Outcome::Succeeded,
            Outcome::Failed(ErrorKind::UrlInvalid),
            Outcome::Succeeded,
        ]
    );
}

#[test]
fn limit_one_and_limit_n_collect_the_same_outcomes() {
    // P5: the concurrency limit plays no part in the collected outcomes.
    let (urls, traces) = three_item_batch();
    let serial = run_batch(&urls, &traces, 1).expect("all traces end");
    let wide = run_batch(&urls, &traces, 3).expect("all traces end");
    assert_eq!(serial, wide);
    let wider = run_batch(&urls, &traces, 64).expect("all traces end");
    assert_eq!(serial, wider);
}

#[test]
fn unfinished_trace_yields_no_table() {
    let (urls, mut traces) = three_item_batch();
    traces[0].pop();
    assert!(run_batch(&urls, &traces, 2).is_none());
}

#[test]
fn preparer_is_idempotent_on_a_fresh_path() {
    // P6: first run creates, second run sees the directory and succeeds.
    assert_eq!(prepare_plan(FsProbe::Missing), Ok(DirAction::CreateAll));
    assert_eq!(prepare_plan(FsProbe::IsDir), Ok(DirAction::Nothing));
}

#[test]
fn preparer_refuses_a_plain_file() {
    // P8: a regular file at the destination is fatal before any fetch.
    assert_eq!(prepare_plan(FsProbe::IsFile), Err(ErrorKind::DestinationIsFile));
}

#[test]
fn preparer_reports_metadata_failures_apart() {
    assert_eq!(
        prepare_plan(FsProbe::PermissionDenied),
        Err(ErrorKind::MetadataUnavailable { permission_denied: true })
    );
    assert_eq!(
        prepare_plan(FsProbe::OtherError),
        Err(ErrorKind::MetadataUnavailable { permission_denied: false })
    );
}
