use scanline::process::mock_scan_at;
use scanline::settings::{get_settings_at, set_group_at, SetGroupError};
use scanline::store::Store;

const NOW: i64 = 40 * 86400 + 7200;

fn fresh_store() -> Store {
    let mut store = Store::open_in_memory().unwrap();
    store.initialize().unwrap();
    store
}

#[test]
fn initialize_installs_defaults() {
    let store = fresh_store();
    let v = get_settings_at(&store, NOW, 0).unwrap();
    assert_eq!(v.group, "A");
    assert_eq!(v.shift, "day");
    assert_eq!(v.plan_target, 500);
    assert_eq!(v.realtime_count, 0);
}

#[test]
fn initialize_is_idempotent() {
    let mut store = fresh_store();
    set_group_at(&mut store, "B", NOW, 0).unwrap();
    mock_scan_at(&mut store, true, NOW, 0);
    // A second initialization must disturb neither settings nor the log.
    store.initialize().unwrap();
    let v = get_settings_at(&store, NOW, 0).unwrap();
    assert_eq!(v.group, "B");
    assert_eq!(v.realtime_count, 1);
    assert_eq!(store.scans().unwrap().len(), 1);
}

#[test]
fn set_group_accepts_the_enumerated_values() {
    let mut store = fresh_store();
    let v = set_group_at(&mut store, "B", NOW, 0).unwrap();
    assert_eq!(v.group, "B");
    assert_eq!(v.shift, "day");
    let v = set_group_at(&mut store, "A", NOW, 0).unwrap();
    assert_eq!(v.group, "A");
}

#[test]
fn set_group_rejects_values_outside_the_set() {
    let mut store = fresh_store();
    for bad in ["C", "", "AB", "a", " A", "BB"] {
        let r = set_group_at(&mut store, bad, NOW, 0);
        assert!(matches!(r, Err(SetGroupError::InvalidGroup)));
        // The stored group is untouched.
        let v = get_settings_at(&store, NOW, 0).unwrap();
        assert_eq!(v.group, "A");
    }
}

#[test]
fn set_group_surfaces_storage_failure() {
    // Without initialization there is no settings table to update.
    let mut store = Store::open_in_memory().unwrap();
    let r = set_group_at(&mut store, "B", NOW, 0);
    assert!(matches!(r, Err(SetGroupError::Storage(_))));
}

#[test]
fn settings_survive_reopening_the_store() {
    let dir = tempfile::tempdir().unwrap();
    let path = dir.path().join("scanline.sqlite");
    let path = path.to_str().unwrap();

    let mut store = Store::open(path).unwrap();
    store.initialize().unwrap();
    set_group_at(&mut store, "B", NOW, 0).unwrap();
    mock_scan_at(&mut store, true, NOW, 0);
    drop(store);

    let mut store = Store::open(path).unwrap();
    store.initialize().unwrap();
    let v = get_settings_at(&store, NOW, 0).unwrap();
    assert_eq!(v.group, "B");
    assert_eq!(v.realtime_count, 1);
    assert_eq!(store.scans().unwrap().len(), 1);
}
