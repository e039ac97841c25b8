//! Proxy settings for a desktop application, and the rules by which they are
//! kept in a JSON file below the user's configuration directory.
//!
//! The crate decides and computes; it touches no file. A caller reads and
//! writes the file and reports what happened, as plain values.

pub mod error;
pub mod json;
pub mod location;
pub mod settings;
pub mod store;

pub use error::{ErrorModel, IoStep, SettingsError};
pub use location::ConfigPath;
pub use settings::{ProxySettings, SettingsModel};
pub use store::{FileRead, ProxyManager};
