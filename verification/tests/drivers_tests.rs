use nanvr_core::drivers::{driver_is_stale, select_stale_drivers};

fn own() -> String {
    "/opt/nanvr/driver".to_string()
}

#[test]
fn the_own_directory_is_never_stale() {
    assert!(!driver_is_stale(&own(), &own()));
}

#[test]
fn family_paths_match_case_insensitively() {
    assert!(driver_is_stale(&"/home/u/nanvr_old".to_string(), &own()));
    assert!(driver_is_stale(&"/home/u/NaNVR-2".to_string(), &own()));
    assert!(driver_is_stale(&"/home/u/NANVR".to_string(), &own()));
}

#[test]
fn foreign_paths_do_not_match() {
    assert!(!driver_is_stale(&"/opt/other_vendor/driver".to_string(), &own()));
    assert!(!driver_is_stale(&"/opt/nan/vr".to_string(), &own()));
    assert!(!driver_is_stale(&String::new(), &own()));
}

#[test]
fn selection_keeps_registry_order_and_drops_the_rest() {
    let registered = vec![
        "/a/NanVR-beta".to_string(),
        "/opt/nanvr/driver".to_string(),
        "/b/unrelated".to_string(),
        "/c/nanvr".to_string(),
    ];
    let stale = select_stale_drivers(&registered, &own());
    assert_eq!(
        stale,
        vec!["/a/NanVR-beta".to_string(), "/c/nanvr".to_string()]
    );
}

#[test]
fn empty_registry_selects_nothing() {
    let stale = select_stale_drivers(&Vec::new(), &own());
    assert!(stale.is_empty());
}
