//! Fixed answers of the Mumble plugin interface.
use vstd::prelude::*;

verus! {

/// A Mumble API or plugin version.
#[allow(non_camel_case_types)]
#[derive(Debug, Clone, Copy, PartialEq, Eq, Structural)]
pub struct mumble_version_t {
    pub major: u32,
    pub minor: u32,
    pub patch: u32,
}

/// The plugin API version this plugin is built against: 1.0.0 (Mumble 1.5
/// accepts only 1.0.x and 1.2.x).
pub fn api_version() -> (r: mumble_version_t)
    ensures
        r == (mumble_version_t { major: 1, minor: 0, patch: 0 }),
{
    mumble_version_t { major: 1, minor: 0, patch: 0 }
}

/// This plugin's own version: 0.1.0.
pub fn plugin_version() -> (r: mumble_version_t)
    ensures
        r == (mumble_version_t { major: 0, minor: 1, patch: 0 }),
{
    mumble_version_t { major: 0, minor: 1, patch: 0 }
}

/// Mumble's `MUMBLE_FEATURE_AUDIO` flag.
pub const FEATURE_AUDIO: u32 = 2;

/// The features the plugin uses: audio only (without it Mumble never calls
/// the audio callback).
pub fn features() -> (r: u32)
    ensures
        r == FEATURE_AUDIO,
{
    FEATURE_AUDIO
}

/// The features given up when Mumble asks: none.
pub fn deactivate_features(_requested: u32) -> (r: u32)
    ensures
        r == 0,
{
    0
}

/// The id Mumble assigned to the plugin, 0 before `mumble_init`.
pub fn plugin_id(assigned: Option<u32>) -> (r: u32)
    ensures
        r == match assigned {
            Some(id) => id,
            None => 0,
        },
{
    match assigned {
        Some(id) => id,
        None => 0,
    }
}

} // verus!
