//! The application's settings.

use vstd::prelude::*;

verus! {

/// Settings read from the configuration file, the environment and the command line;
/// an absent one is `None`.
#[derive(Debug, Default, PartialEq, Eq)]
pub struct AppConfig {
    pub audio_host_name: Option<String>,
    pub audio_device_id: Option<usize>,
    pub midi_device_id: Option<usize>,
    pub beat_sensitivity: Option<u32>,
}

} // verus!
