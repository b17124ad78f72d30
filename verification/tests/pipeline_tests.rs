use scanline::counter::realtime_count;
use scanline::process::{mock_scan_at, process, process_at, ValidationError};
use scanline::store::Store;

const DAY: i64 = 86400;
// Local midnight at the start of an arbitrary day, with a zero UTC offset.
const MIDNIGHT: i64 = 12 * DAY;

fn fresh_store() -> Store {
    let mut store = Store::open_in_memory().unwrap();
    store.initialize().unwrap();
    store
}

#[test]
fn process_empty_barcode_is_rejected_without_mutation() {
    let mut store = fresh_store();
    let before = store.scans().unwrap().len();

    let r = process(&mut store, "");
    assert!(matches!(r, Err(ValidationError::EmptyBarcode)));
    let r = process(&mut store, "   ");
    assert!(matches!(r, Err(ValidationError::EmptyBarcode)));

    let after = store.scans().unwrap().len();
    assert_eq!(before, after);
}

#[test]
fn process_records_scan_and_reports_outcome() {
    let mut store = fresh_store();
    let resp = process_at(&mut store, "ab", MIDNIGHT + 100, 0).unwrap();
    assert!(resp.success);
    assert_eq!(resp.message, "correct scan");
    assert_eq!(resp.barcode, "ab");
    assert_eq!(resp.timestamp_secs, MIDNIGHT + 100);
    assert_eq!(resp.group, "A");
    assert_eq!(resp.shift, "day");
    assert_eq!(resp.plan_target, 500);
    assert_eq!(resp.realtime_count, 1);

    let rows = store.scans().unwrap();
    assert_eq!(rows.len(), 1);
    assert_eq!(rows[0].barcode, "ab");
    assert!(rows[0].success);
    assert_eq!(rows[0].ts, MIDNIGHT + 100);
}

#[test]
fn process_failed_scan_reports_failure() {
    let mut store = fresh_store();
    let resp = process_at(&mut store, "1239", MIDNIGHT + 100, 0).unwrap();
    assert!(!resp.success);
    assert_eq!(resp.message, "incorrect scan");
    assert_eq!(resp.realtime_count, 0);

    let rows = store.scans().unwrap();
    assert_eq!(rows.len(), 1);
    assert!(!rows[0].success);
}

#[test]
fn realtime_count_matches_successes_of_the_day() {
    let mut store = fresh_store();
    let outcomes = [true, false, true, true, false, true];
    for (i, &success) in outcomes.iter().enumerate() {
        mock_scan_at(&mut store, success, MIDNIGHT + 10 * (i as i64 + 1), 0);
    }
    let count = realtime_count(&store, MIDNIGHT + 1000, 0).unwrap();
    assert_eq!(count, 4);
}

#[test]
fn day_boundary_excludes_prior_day() {
    let mut store = fresh_store();
    // A successful scan one second before local midnight counts for its own
    // day...
    mock_scan_at(&mut store, true, MIDNIGHT - 1, 0);
    assert_eq!(realtime_count(&store, MIDNIGHT - 1, 0).unwrap(), 1);
    // ...but is excluded from a count taken just after midnight.
    assert_eq!(realtime_count(&store, MIDNIGHT + 1, 0).unwrap(), 0);
    // A successful scan exactly at midnight is included.
    mock_scan_at(&mut store, true, MIDNIGHT, 0);
    assert_eq!(realtime_count(&store, MIDNIGHT + 1, 0).unwrap(), 1);
}

#[test]
fn day_boundary_respects_utc_offset() {
    let mut store = fresh_store();
    // With a +1h offset, the local day starts at MIDNIGHT - 3600 UTC.
    mock_scan_at(&mut store, true, MIDNIGHT - 3601, 3600);
    mock_scan_at(&mut store, true, MIDNIGHT - 3599, 3600);
    assert_eq!(realtime_count(&store, MIDNIGHT, 3600).unwrap(), 1);
}

#[test]
fn mock_scan_takes_outcome_verbatim() {
    let mut store = fresh_store();
    // The sentinel barcode would classify as a failure (odd length), yet a
    // simulated success is stored and returned as a success: the classifier
    // is never consulted.
    let resp = mock_scan_at(&mut store, true, MIDNIGHT + 5, 0);
    assert!(resp.success);
    assert_eq!(resp.barcode, "simulated");
    assert_eq!(resp.message, "correct scan");

    let resp = mock_scan_at(&mut store, false, MIDNIGHT + 6, 0);
    assert!(!resp.success);
    assert_eq!(resp.message, "incorrect scan");

    let rows = store.scans().unwrap();
    assert_eq!(rows.len(), 2);
    assert!(rows[0].success);
    assert_eq!(rows[0].barcode, "simulated");
    assert!(!rows[1].success);
}

#[test]
fn process_is_fail_open_on_storage_trouble() {
    // A store that was never initialized has no tables: the insert and the
    // reads all fail, yet the request still succeeds with default settings
    // and a zero count.
    let mut store = Store::open_in_memory().unwrap();
    let resp = process_at(&mut store, "ab", MIDNIGHT + 1, 0).unwrap();
    assert!(resp.success);
    assert_eq!(resp.group, "A");
    assert_eq!(resp.shift, "day");
    assert_eq!(resp.plan_target, 500);
    assert_eq!(resp.realtime_count, 0);
}

#[test]
fn storage_error_surfaces_on_uninitialized_reads() {
    let mut store = Store::open_in_memory().unwrap();
    assert!(store.insert_scan("ab", true, 0).is_err());
    assert!(store.scans().is_err());
    assert!(realtime_count(&store, MIDNIGHT, 0).is_err());
}
