//! The settings service: reads the settings singleton merged with the
//! realtime count, and updates the group field after validating it against
//! the enumerated set of group names.

use vstd::prelude::*;

use crate::classify::chars_of;
use crate::counter::{lemma_count_bounds, realtime_count, success_count_since};
use crate::store::{settings_or_default, StorageError, Store};
use crate::time::{day_start, now_local, valid_offset, valid_timestamp};

verus! {

/// The enumerated set of admissible group names.
pub open spec fn valid_group(g: Seq<char>) -> bool {
    g == "A"@ || g == "B"@
}

/// The settings row after its group field is overwritten with `g`; a missing
/// row stays missing, because the update touches no other field and inserts
/// nothing.
pub open spec fn updated_group(row: Option<(Seq<char>, Seq<char>, int)>, g: Seq<char>) -> Option<
    (Seq<char>, Seq<char>, int),
> {
    match row {
        Some(t) => Some((g, t.1, t.2)),
        None => None,
    }
}

/// The current settings merged with the realtime count.
#[derive(Debug)]
pub struct SettingsResponse {
    pub group: String,
    pub shift: String,
    pub plan_target: i64,
    pub realtime_count: usize,
}

/// Why a group update was refused.
#[derive(Debug)]
pub enum SetGroupError {
    /// The requested group is outside the enumerated set.
    InvalidGroup,
    /// The store failed while updating or re-reading the settings.
    Storage(StorageError),
}

/// Decides whether `g` names an admissible group.
pub fn is_valid_group(g: &str) -> (r: bool)
    ensures
        r == valid_group(g@),
{
    proof {
        reveal_strlit("A");
        reveal_strlit("B");
    }
    let v = chars_of(g);
    if v.len() == 1 {
        let c = v[0];
        proof {
            if c == 'A' {
                assert(g@ =~= "A"@);
            } else if c == 'B' {
                assert(g@ =~= "B"@);
            }
        }
        c == 'A' || c == 'B'
    } else {
        false
    }
}

/// Reads the current settings (falling back to the fixed default if the row
/// is missing) together with the realtime count for the local day containing
/// `now`.
pub fn get_settings_at(store: &Store, now: i64, off: i32) -> (r: Result<
    SettingsResponse,
    StorageError,
>)
    requires
        valid_offset(off as int),
        valid_timestamp(now as int),
    ensures
        r matches Ok(v) ==> (v.group@, v.shift@, v.plan_target as int) == settings_or_default(
            store.settings(),
        ) && v.realtime_count == success_count_since(
            store.log(),
            day_start(now as int, off as int),
        ),
{
    let s = match store.read_settings() {
        Ok(s) => s,
        Err(e) => {
            return Err(e);
        },
    };
    let c = match realtime_count(store, now, off) {
        Ok(c) => c,
        Err(e) => {
            return Err(e);
        },
    };
    Ok(SettingsResponse { group: s.group, shift: s.shift, plan_target: s.plan_target, realtime_count: c })
}

/// Reads the current settings and realtime count at the current wall-clock
/// time.
pub fn get_settings(store: &Store) -> (r: Result<SettingsResponse, StorageError>)
    ensures
        r matches Ok(v) ==> (v.group@, v.shift@, v.plan_target as int) == settings_or_default(
            store.settings(),
        ) && v.realtime_count <= store.log().len(),
{
    let (now, off) = now_local();
    let r = get_settings_at(store, now, off);
    proof {
        lemma_count_bounds(store.log(), day_start(now as int, off as int));
    }
    r
}

/// Updates the group field of the settings singleton if the requested value
/// is admissible, then returns the refreshed settings merged with the
/// realtime count. An inadmissible value is rejected and the stored settings
/// are left unchanged; the scan log is never touched.
pub fn set_group_at(store: &mut Store, group: &str, now: i64, off: i32) -> (r: Result<
    SettingsResponse,
    SetGroupError,
>)
    requires
        valid_offset(off as int),
        valid_timestamp(now as int),
    ensures
        final(store).log() == old(store).log(),
        (r matches Err(e) && e is InvalidGroup) <==> !valid_group(group@),
        !valid_group(group@) ==> final(store).settings() == old(store).settings(),
        valid_group(group@) ==> (final(store).settings() == updated_group(
            old(store).settings(),
            group@,
        ) || final(store).settings() == old(store).settings()),
        r matches Ok(v) ==> valid_group(group@) && final(store).settings() == updated_group(
            old(store).settings(),
            group@,
        ) && (v.group@, v.shift@, v.plan_target as int) == settings_or_default(
            final(store).settings(),
        ) && v.realtime_count == success_count_since(
            final(store).log(),
            day_start(now as int, off as int),
        ),
{
    if !is_valid_group(group) {
        return Err(SetGroupError::InvalidGroup);
    }
    match store.update_group(group) {
        Ok(()) => (),
        Err(e) => {
            return Err(SetGroupError::Storage(e));
        },
    }
    match get_settings_at(store, now, off) {
        Ok(v) => Ok(v),
        Err(e) => Err(SetGroupError::Storage(e)),
    }
}

/// Updates the group at the current wall-clock time.
pub fn set_group(store: &mut Store, group: &str) -> (r: Result<SettingsResponse, SetGroupError>)
    ensures
        final(store).log() == old(store).log(),
        (r matches Err(e) && e is InvalidGroup) <==> !valid_group(group@),
        !valid_group(group@) ==> final(store).settings() == old(store).settings(),
        valid_group(group@) ==> (final(store).settings() == updated_group(
            old(store).settings(),
            group@,
        ) || final(store).settings() == old(store).settings()),
        r matches Ok(v) ==> valid_group(group@) && final(store).settings() == updated_group(
            old(store).settings(),
            group@,
        ) && (v.group@, v.shift@, v.plan_target as int) == settings_or_default(
            final(store).settings(),
        ),
{
    let (now, off) = now_local();
    set_group_at(store, group, now, off)
}

} // verus!
