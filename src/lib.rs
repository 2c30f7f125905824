//! Acquisition and resolution engine of a tool-version manager: which
//! installed version of a tool applies where, how a version is fetched,
//! unpacked and published, and how a shim hands control to the real binary.

pub mod text;
pub mod binding;
pub mod dispatch;
pub mod extract;
pub mod localization;
pub mod fetch;
pub mod paths;
pub mod pipeline;
pub mod platform;
pub mod redis;
pub mod sources;
pub mod tool;
pub mod uninstall;
pub mod version;
