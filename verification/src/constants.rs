//! Fixed values of the device: pauses of its workers, the texts it shows on
//! the display, and what depends on the kind of build.

use vstd::prelude::*;

verus! {

/// Pauses and timeouts, in milliseconds.
#[derive(Debug)]
pub struct DefaultValues;

impl DefaultValues {
    pub const API_TIMEOUT_MS: u64 = 10000;

    pub const WIFI_RECONNECTION_DELAY_MS: u64 = 4000;

    pub const NET_CONNECTION_MANAGER_THREAD_DELAY_MS: u64 = 4000;

    pub const TM1637_THREAD: u64 = 1000;

    pub const APIS_THREAD_DELAY_MS: u64 = 3000;

    pub const BUZZER_THREAD_DELAY_MS: u64 = 500;
}

/// Texts for the segment display. They are worded for the glyphs that the
/// display has: there is no `w`, so the network is a "yify".
#[derive(Debug)]
pub struct SegmentDisplayText;

impl SegmentDisplayText {
    pub const ERR_404: &'static str = "Err 404";

    pub const ERR_400: &'static str = "Err 400";

    pub const ERR_503: &'static str = "Err 503";

    pub const ERR_API: &'static str = "Err API";

    pub const ERR_JSON: &'static str = "Err JSON";

    pub const ERR_NO_WIFI: &'static str = "Err no yify";
}

/// What is logged, by kind of build.
#[derive(Clone, Copy, Debug, PartialEq, Eq, Structural)]
pub struct EnvConfig {
    pub show_network_requests: bool,
    pub show_network_response: bool,
}

impl EnvConfig {
    /// A debug build logs requests and responses; a release build logs
    /// neither.
    pub fn new(is_debug: bool) -> (config: Self)
        ensures
            config.show_network_requests == is_debug,
            config.show_network_response == is_debug,
    {
        if is_debug {
            return EnvConfig { show_network_requests: true, show_network_response: true };
        }
        EnvConfig { show_network_requests: false, show_network_response: false }
    }
}

/// The kind of build, and what follows from it.
#[derive(Clone, Copy, Debug, PartialEq, Eq, Structural)]
pub struct Environment {
    pub is_debug: bool,
    pub is_release: bool,
    pub config: EnvConfig,
}

impl Environment {
    /// The environment of a debug build, or of a release build.
    pub fn new(is_debug: bool) -> (environment: Self)
        ensures
            environment.is_debug == is_debug,
            environment.is_release == !is_debug,
            environment.config.show_network_requests == is_debug,
            environment.config.show_network_response == is_debug,
    {
        let config = EnvConfig::new(is_debug);
        Environment { is_debug, is_release: !is_debug, config }
    }
}

} // verus!
