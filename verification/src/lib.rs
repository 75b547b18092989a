//! Verified core of the RMTFAR radio mod: the `v1|...` payload format,
//! the player/radio protocol model, the player store and the plugin's
//! audio decisions.

pub mod text;
pub mod decimal;
pub mod pipe;
pub mod json;
pub mod payload;
pub mod protocol;
pub mod store;
pub mod extension;
pub mod bridge;
pub mod plugin;
pub mod radio;
pub mod audio;
pub mod link;
pub mod mumble;
pub mod laws;
