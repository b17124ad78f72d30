//! The scan processor: orchestrates one scan submission end to end —
//! validation, classification, the durable insert, and the composite response
//! of settings and realtime count.
//!
//! Recording is deliberately fail-open: if the insert itself fails, the
//! request still produces a response built from best-effort (possibly
//! default) settings and counter values. The contracts state this as a
//! disjunction: the log either grew by exactly the new event or is unchanged.

use vstd::prelude::*;

use crate::classify::{classify, mock_external_service, trimmed, trimmed_is_empty};
use crate::counter::{lemma_count_bounds, realtime_count, success_count_since};
use crate::store::{default_settings, settings_or_default, Settings, Store};
use crate::time::{day_start, now_local, valid_offset, valid_timestamp};

verus! {

/// A scan of an empty barcode is refused before anything is stored.
#[derive(Debug)]
pub enum ValidationError {
    EmptyBarcode,
}

/// The composite result of one scan submission.
#[derive(Debug)]
pub struct ProcessResponse {
    pub success: bool,
    pub message: String,
    pub group: String,
    pub shift: String,
    pub plan_target: i64,
    pub realtime_count: usize,
    pub barcode: String,
    pub timestamp_secs: i64,
    pub offset_secs: i32,
}

/// The fixed human-readable message keyed by the scan outcome.
pub open spec fn success_message(s: bool) -> Seq<char> {
    if s {
        "correct scan"@
    } else {
        "incorrect scan"@
    }
}

/// The sentinel barcode recorded by simulated scans.
pub open spec fn simulated_barcode() -> Seq<char> {
    "simulated"@
}

/// The message for outcome `s`, as a string.
fn message_for(s: bool) -> (r: String)
    ensures
        r@ == success_message(s),
{
    if s {
        "correct scan".to_owned()
    } else {
        "incorrect scan".to_owned()
    }
}

/// The response fields common to real and simulated scans: current settings
/// (default on read failure), realtime count (zero on read failure), and the
/// echoed outcome, barcode and timestamp.
fn compose_response(
    store: &Store,
    success: bool,
    barcode: String,
    now: i64,
    off: i32,
) -> (r: ProcessResponse)
    requires
        valid_offset(off as int),
        valid_timestamp(now as int),
    ensures
        r.success == success,
        r.message@ == success_message(success),
        r.barcode == barcode,
        r.timestamp_secs == now,
        r.offset_secs == off,
        (r.group@, r.shift@, r.plan_target as int) == settings_or_default(store.settings()) || (
        r.group@,
        r.shift@,
        r.plan_target as int,
        ) == default_settings(),
        r.realtime_count == success_count_since(store.log(), day_start(now as int, off as int))
            || r.realtime_count == 0,
{
    let settings = match store.read_settings() {
        Ok(s) => s,
        Err(_) => Settings::default(),
    };
    let count = match realtime_count(store, now, off) {
        Ok(c) => c,
        Err(_) => 0,
    };
    ProcessResponse {
        success,
        message: message_for(success),
        group: settings.group,
        shift: settings.shift,
        plan_target: settings.plan_target,
        realtime_count: count,
        barcode,
        timestamp_secs: now,
        offset_secs: off,
    }
}

/// Processes one scan submission at the given instant: rejects a barcode that
/// is empty once trimmed without touching the store; otherwise classifies the
/// barcode, appends the event (fail-open: a failed insert leaves the log
/// unchanged but still yields a response), and reports the outcome together
/// with current settings and realtime count.
pub fn process_at(store: &mut Store, barcode: &str, now: i64, off: i32) -> (r: Result<
    ProcessResponse,
    ValidationError,
>)
    requires
        valid_offset(off as int),
        valid_timestamp(now as int),
    ensures
        final(store).settings() == old(store).settings(),
        r is Err <==> trimmed(barcode@).len() == 0,
        r is Err ==> final(store).log() == old(store).log(),
        r matches Ok(resp) ==> {
            &&& final(store).log() == old(store).log().push(
                (barcode@, classify(barcode@), now as int),
            ) || final(store).log() == old(store).log()
            &&& resp.success == classify(barcode@)
            &&& resp.message@ == success_message(classify(barcode@))
            &&& resp.barcode@ == barcode@
            &&& resp.timestamp_secs == now
            &&& resp.offset_secs == off
            &&& ((resp.group@, resp.shift@, resp.plan_target as int) == settings_or_default(
                old(store).settings(),
            ) || (resp.group@, resp.shift@, resp.plan_target as int) == default_settings())
            &&& (resp.realtime_count == success_count_since(
                final(store).log(),
                day_start(now as int, off as int),
            ) || resp.realtime_count == 0)
        },
{
    if trimmed_is_empty(barcode) {
        return Err(ValidationError::EmptyBarcode);
    }
    let success = mock_external_service(barcode);
    let _insert_outcome = store.insert_scan(barcode, success, now);
    Ok(compose_response(store, success, barcode.to_owned(), now, off))
}

/// Records a simulated scan at the given instant: the sentinel barcode is
/// stored with the outcome supplied by the caller, verbatim — the classifier
/// is never consulted — and the same composite response is produced.
pub fn mock_scan_at(store: &mut Store, success: bool, now: i64, off: i32) -> (r: ProcessResponse)
    requires
        valid_offset(off as int),
        valid_timestamp(now as int),
    ensures
        final(store).settings() == old(store).settings(),
        final(store).log() == old(store).log().push((simulated_barcode(), success, now as int))
            || final(store).log() == old(store).log(),
        r.success == success,
        r.message@ == success_message(success),
        r.barcode@ == simulated_barcode(),
        r.timestamp_secs == now,
        r.offset_secs == off,
        (r.group@, r.shift@, r.plan_target as int) == settings_or_default(old(store).settings())
            || (r.group@, r.shift@, r.plan_target as int) == default_settings(),
        r.realtime_count == success_count_since(
            final(store).log(),
            day_start(now as int, off as int),
        ) || r.realtime_count == 0,
{
    let _insert_outcome = store.insert_scan("simulated", success, now);
    compose_response(store, success, "simulated".to_owned(), now, off)
}

/// Processes one scan submission at the current wall-clock time.
pub fn process(store: &mut Store, barcode: &str) -> (r: Result<ProcessResponse, ValidationError>)
    ensures
        final(store).settings() == old(store).settings(),
        r is Err <==> trimmed(barcode@).len() == 0,
        r is Err ==> final(store).log() == old(store).log(),
        r matches Ok(resp) ==> {
            &&& final(store).log() == old(store).log().push(
                (barcode@, classify(barcode@), resp.timestamp_secs as int),
            ) || final(store).log() == old(store).log()
            &&& resp.success == classify(barcode@)
            &&& resp.message@ == success_message(classify(barcode@))
            &&& resp.barcode@ == barcode@
            &&& resp.realtime_count <= final(store).log().len()
        },
{
    let (now, off) = now_local();
    let r = process_at(store, barcode, now, off);
    proof {
        lemma_count_bounds(store.log(), day_start(now as int, off as int));
    }
    r
}

/// Records a simulated scan at the current wall-clock time.
pub fn mock_scan(store: &mut Store, success: bool) -> (r: ProcessResponse)
    ensures
        final(store).settings() == old(store).settings(),
        final(store).log() == old(store).log().push(
            (simulated_barcode(), success, r.timestamp_secs as int),
        ) || final(store).log() == old(store).log(),
        r.success == success,
        r.message@ == success_message(success),
        r.barcode@ == simulated_barcode(),
        r.realtime_count <= final(store).log().len(),
{
    let (now, off) = now_local();
    let r = mock_scan_at(store, success, now, off);
    proof {
        lemma_count_bounds(store.log(), day_start(now as int, off as int));
    }
    r
}

} // verus!
