use nanvr_core::version::{hash_string, protocol_id, protocol_id_of};
use nanvr_core::NANVR_VERSION;

#[test]
fn protocol_id_of_stable_release_is_the_major() {
    assert_eq!(protocol_id_of("1.2.3"), "1");
    assert_eq!(protocol_id_of("21.0.0"), "21");
}

#[test]
fn protocol_id_of_a_bare_major_is_itself() {
    assert_eq!(protocol_id_of("7"), "7");
}

#[test]
fn protocol_id_of_prerelease_keeps_the_tag() {
    assert_eq!(protocol_id_of("21.0.0-dev01"), "21-dev01");
    assert_eq!(protocol_id_of("0.5.0-rc.1"), "0-rc.1");
}

#[test]
fn protocol_id_matches_the_build_version() {
    assert_eq!(NANVR_VERSION, "21.0.0-dev01");
    assert_eq!(protocol_id(), "21-dev01");
}

#[test]
fn hash_string_has_the_fnv_offset_basis_for_empty_input() {
    assert_eq!(hash_string(""), 0xcbf29ce484222325);
}

#[test]
fn hash_string_matches_known_fnv1a_values() {
    assert_eq!(hash_string("a"), 0xaf63dc4c8601ec8c);
    assert_eq!(hash_string("foobar"), 0x85944171f73967e8);
}

#[test]
fn hash_string_is_deterministic_and_spreads() {
    assert_eq!(hash_string("nanvr"), hash_string("nanvr"));
    assert_ne!(hash_string("nanvr"), hash_string("nanvs"));
}
