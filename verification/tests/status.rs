use arena::clash::{StatusKind, StatusStore};

#[test]
fn add_status() {
    let mut store = StatusStore::init();
    assert!(!store.has(StatusKind::TestStatus));
    store.add_status(StatusKind::TestStatus, 200);
    assert!(store.has(StatusKind::TestStatus));
    assert_eq!(200, store.duration(StatusKind::TestStatus).unwrap());
}

#[test]
fn add_duplicate_status() {
    let mut store = StatusStore::init();
    assert!(!store.has(StatusKind::TestStatus));
    store.add_status(StatusKind::TestStatus, 300);
    store.add_status(StatusKind::TestStatus, 200);
    assert!(store.has(StatusKind::TestStatus));
    assert_eq!(300, store.duration(StatusKind::TestStatus).unwrap());
}

#[test]
fn add_trait() {
    let mut store = StatusStore::init();
    assert!(!store.has(StatusKind::TestTrait));
    store.add_trait(StatusKind::TestTrait);
    assert!(store.has(StatusKind::TestTrait));
}

#[test]
fn add_duplicate_trait() {
    let mut store = StatusStore::init();
    store.add_trait(StatusKind::TestTrait);
    store.add_trait(StatusKind::TestTrait);
    assert!(store.has(StatusKind::TestTrait));
}

#[test]
fn remove_trait() {
    let mut store = StatusStore::init();
    store.add_trait(StatusKind::TestTrait);
    assert!(store.has(StatusKind::TestTrait));
    store.remove_trait(StatusKind::TestTrait);
    assert!(!store.has(StatusKind::TestTrait));
}

#[test]
fn tick_statuses() {
    let mut store = StatusStore::init();
    store.add_trait(StatusKind::TestTrait);
    store.add_status(StatusKind::TestStatus, 100);
    store.apply_ticks(100);
    assert!(!store.has(StatusKind::TestStatus));
    assert!(store.has(StatusKind::TestTrait));
}

#[test]
fn get_all_names() {
    let mut store = StatusStore::init();
    store.add_trait(StatusKind::TestTrait);
    store.add_status(StatusKind::TestStatus, 100);
    let all = store.get_all();
    assert_eq!(StatusKind::TestStatus, all[0]);
    assert_eq!(StatusKind::TestTrait, all[1]);
}

#[test]
fn toggle_inactive_false_trait() {
    let mut store = StatusStore::init();
    store.toggle_trait(StatusKind::TestTrait, false);
    assert!(!store.has(StatusKind::TestTrait));
}

#[test]
fn toggle_inactive_true_trait() {
    let mut store = StatusStore::init();
    store.toggle_trait(StatusKind::TestTrait, true);
    assert!(store.has(StatusKind::TestTrait));
}

#[test]
fn toggle_active_false_trait() {
    let mut store = StatusStore::init();
    store.add_trait(StatusKind::TestTrait);
    store.toggle_trait(StatusKind::TestTrait, false);
    assert!(!store.has(StatusKind::TestTrait));
}

#[test]
fn toggle_active_true_trait() {
    let mut store = StatusStore::init();
    store.add_trait(StatusKind::TestTrait);
    store.toggle_trait(StatusKind::TestTrait, true);
    assert!(store.has(StatusKind::TestTrait));
}

#[test]
fn remove_trait_found() {
    let mut store = StatusStore::init();
    store.add_trait(StatusKind::TestTrait);
    store.remove_trait_if_found(StatusKind::TestTrait);
    assert_eq!(false, store.has(StatusKind::TestTrait));
}

#[test]
fn remove_trait_missing() {
    let mut store = StatusStore::init();
    store.remove_trait_if_found(StatusKind::TestTrait);
    assert_eq!(false, store.has(StatusKind::TestTrait));
}

#[test]
fn remove_status_found() {
    let mut store = StatusStore::init();
    store.add_status(StatusKind::TestStatus, 100);
    store.remove_status(StatusKind::TestStatus);
    assert_eq!(false, store.has(StatusKind::TestTrait));
}

#[test]
fn toggle_reports_changes() {
    let mut store = StatusStore::init();
    assert_eq!(Some(true), store.toggle_trait(StatusKind::Frozen, true));
    assert_eq!(None, store.toggle_trait(StatusKind::Frozen, true));
    assert_eq!(Some(false), store.toggle_trait(StatusKind::Frozen, false));
    assert_eq!(None, store.toggle_trait(StatusKind::Frozen, false));
}

#[test]
fn apply_ticks_reports_expired() {
    let mut store = StatusStore::init();
    store.add_status(StatusKind::Aimed, 50);
    store.add_status(StatusKind::Burning, 200);
    store.add_trait(StatusKind::Armored);
    let expired = store.apply_ticks(60);
    assert_eq!(vec![StatusKind::Aimed], expired);
    assert!(store.has(StatusKind::Burning));
    assert!(store.has(StatusKind::Armored));
    assert_eq!(None, store.duration(StatusKind::Armored));
}

#[test]
fn display_status_skips_traits_and_hidden() {
    let mut store = StatusStore::init();
    store.add_status(StatusKind::StaticCharge, 100);
    store.add_status(StatusKind::RegenTick, 100);
    store.add_trait(StatusKind::Armored);
    let shown = store.get_all_display_status();
    assert_eq!(vec!["Charge with Static".to_string()], shown);
}

#[test]
fn kind_numbers_round_trip() {
    assert_eq!(5, StatusKind::StaticCharge.to_u32());
    assert_eq!(Some(StatusKind::StaticCharge), StatusKind::from_u32(5));
    assert_eq!(None, StatusKind::from_u32(13));
    assert_eq!("Burning", StatusKind::Burning.description());
    assert!(!StatusKind::Flying.should_display());
}
