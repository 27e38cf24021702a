//! Configuration records: the settings of the application and the snapshots
//! of the mixer.

use vstd::prelude::*;
use vstd::string::*;

verus! {

/// Samples per second where nothing is configured.
pub const DEFAULT_SAMPLE_RATE: u32 = 48000;

/// Samples per buffer where nothing is configured.
pub const DEFAULT_BUFFER_SIZE: u32 = 256;

/// The settings of the application.
#[derive(Debug, Clone)]
pub struct AppConfig {
    /// Samples per second.
    pub sample_rate: u32,
    /// Samples per buffer.
    pub buffer_size: u32,
    /// The colour scheme.
    pub theme: String,
    /// The language of the interface.
    pub language: String,
}

impl Default for AppConfig {
    fn default() -> (r: Self)
        ensures
            r.sample_rate == DEFAULT_SAMPLE_RATE,
            r.buffer_size == DEFAULT_BUFFER_SIZE,
            r.theme@ == "dark"@,
            r.language@ == "de"@,
    {
        AppConfig {
            sample_rate: DEFAULT_SAMPLE_RATE,
            buffer_size: DEFAULT_BUFFER_SIZE,
            theme: "dark".to_owned(),
            language: "de".to_owned(),
        }
    }
}

/// A stored preset of the mixer.
#[derive(Debug, Clone)]
pub struct Preset {
    /// The identifier.
    pub id: String,
    /// The name that is shown.
    pub name: String,
    /// The category, such as `Streaming` or `Podcast`.
    pub category: String,
    /// The state of the mixer, serialised.
    pub state_json: String,
    /// When the preset was made, in seconds of the Unix epoch.
    pub created_at: i64,
}

/// A stored scene: a snapshot of the whole mixer.
#[derive(Debug, Clone)]
pub struct Scene {
    /// The identifier.
    pub id: String,
    /// The name that is shown.
    pub name: String,
    /// The state of the mixer, serialised.
    pub state_json: String,
    /// When the scene was made, in seconds of the Unix epoch.
    pub created_at: i64,
}

/// A scene as a list shows it, without its state.
#[derive(Debug, Clone)]
pub struct SceneInfo {
    /// The identifier.
    pub id: String,
    /// The name that is shown.
    pub name: String,
    /// When the scene was made, in seconds of the Unix epoch.
    pub created_at: i64,
}

} // verus!
