use hq_launcher::state_store::ManifestState;
use hq_launcher::versions::{latest_installed_version, parse_version_name};

#[test]
fn state_encode_decode_round_trip() {
    for v in [0u32, 1, 9, 10, 42, 4294967295] {
        let bytes = ManifestState { manifest_version: v }.encode();
        let back = ManifestState::decode(Some(&bytes)).expect("canonical bytes decode");
        assert_eq!(back.manifest_version, v);
    }
}

#[test]
fn state_encoding_is_the_plain_json_object() {
    let bytes = ManifestState { manifest_version: 42 }.encode();
    assert_eq!(bytes, b"{\"manifest_version\":42}".to_vec());
}

#[test]
fn absent_state_file_defaults_to_zero() {
    let st = ManifestState::decode(None).expect("absent file is a fresh store");
    assert_eq!(st.manifest_version, 0);
}

#[test]
fn malformed_state_file_is_rejected() {
    assert!(ManifestState::decode(Some(&b"".to_vec())).is_none());
    assert!(ManifestState::decode(Some(&b"{}".to_vec())).is_none());
    assert!(ManifestState::decode(Some(&b"{\"manifest_version\":}".to_vec())).is_none());
    assert!(ManifestState::decode(Some(&b"{\"manifest_version\":x}".to_vec())).is_none());
    assert!(ManifestState::decode(Some(&b"{\"manifest_version\":42".to_vec())).is_none());
    assert!(ManifestState::decode(Some(&b"{\"other_key\":42}".to_vec())).is_none());
    // A counter beyond the 32-bit range is rejected rather than wrapped.
    assert!(ManifestState::decode(Some(&b"{\"manifest_version\":4294967296}".to_vec())).is_none());
}

#[test]
fn version_names_follow_the_v_number_convention() {
    assert_eq!(parse_version_name("v56"), Some(56));
    assert_eq!(parse_version_name("v0"), Some(0));
    assert_eq!(parse_version_name("v007"), Some(7));
    assert_eq!(parse_version_name("v4294967295"), Some(4294967295));
    assert_eq!(parse_version_name("v4294967296"), None);
    assert_eq!(parse_version_name("v"), None);
    assert_eq!(parse_version_name(""), None);
    assert_eq!(parse_version_name("x56"), None);
    assert_eq!(parse_version_name("v12a"), None);
    assert_eq!(parse_version_name("v 12"), None);
    assert_eq!(parse_version_name("56"), None);
}

#[test]
fn latest_installed_is_the_greatest_version() {
    let names: Vec<String> = vec![
        "v56".to_string(),
        "junk".to_string(),
        "v73".to_string(),
        "v60".to_string(),
        "v73".to_string(),
    ];
    // The first directory carrying the greatest number wins.
    assert_eq!(latest_installed_version(&names), Some((73, 2)));
}

#[test]
fn latest_installed_of_nothing_is_none() {
    assert_eq!(latest_installed_version(&Vec::new()), None);
    let names: Vec<String> = vec!["temp".to_string(), "v".to_string(), "73".to_string()];
    assert_eq!(latest_installed_version(&names), None);
}
