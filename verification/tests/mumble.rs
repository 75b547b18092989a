use rmtfar::mumble::{
    api_version, deactivate_features, features, mumble_version_t, plugin_id, plugin_version,
    FEATURE_AUDIO,
};

#[test]
fn versions() {
    assert_eq!(api_version(), mumble_version_t { major: 1, minor: 0, patch: 0 });
    assert_eq!(plugin_version(), mumble_version_t { major: 0, minor: 1, patch: 0 });
}

#[test]
fn feature_flags() {
    assert_eq!(features(), FEATURE_AUDIO);
    assert_eq!(FEATURE_AUDIO, 2);
    assert_eq!(deactivate_features(0xffff), 0);
}

#[test]
fn plugin_id_defaults_to_zero() {
    assert_eq!(plugin_id(None), 0);
    assert_eq!(plugin_id(Some(17)), 17);
}
