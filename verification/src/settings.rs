//! The settings record and its default value.

use vstd::prelude::*;

verus! {

/// Whether requests go through an HTTP proxy, and where that proxy listens.
///
/// The URL is kept as written: no scheme or host is required of it.
#[derive(Debug, Clone, PartialEq, Eq)]
pub struct ProxySettings {
    pub enabled: bool,
    pub url: String,
}

/// The mathematical value of a [`ProxySettings`].
pub ghost struct SettingsModel {
    pub enabled: bool,
    pub url: Seq<char>,
}

impl View for ProxySettings {
    type V = SettingsModel;

    open spec fn view(&self) -> SettingsModel {
        SettingsModel { enabled: self.enabled, url: self.url@ }
    }
}

/// The settings in force while nothing has been saved: the proxy is off and
/// points at the local port 7890.
pub open spec fn default_settings() -> SettingsModel {
    SettingsModel { enabled: false, url: "http://127.0.0.1:7890"@ }
}

impl Default for ProxySettings {
    fn default() -> (settings: ProxySettings)
        ensures
            settings@ == default_settings(),
    {
        ProxySettings { enabled: false, url: String::from_str("http://127.0.0.1:7890") }
    }
}

} // verus!
