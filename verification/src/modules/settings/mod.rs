//! Settings of the desktop shell: the tracing filter and timestamps.
use vstd::prelude::*;

/// Tracing settings model.
pub mod settings_tracing;

pub use crate::settings::SettingError;
use crate::logging::app_console_layer::TimestampMode;
use crate::settings::settings_logging::LevelFilter;
use settings_tracing::TracingSettings;

verus! {

/// Top-level settings object of the desktop shell.
#[derive(Clone, Copy, Debug)]
pub struct CastellanSettings {
    /// Logging filter and timestamp rendering options.
    pub tracing: TracingSettings,
}

impl Default for CastellanSettings {
    fn default() -> (r: Self)
        ensures
            r.tracing.level == LevelFilter::Debug,
            r.tracing.timestamp_mode == TimestampMode::Utc,
    {
        CastellanSettings { tracing: TracingSettings::default() }
    }
}

/// The settings in use, and whether loading fell back to defaults.
pub struct SettingsState {
    settings: CastellanSettings,
    used_default_settings: bool,
}

impl SettingsState {
    /// The settings in use.
    pub closed spec fn spec_settings(&self) -> CastellanSettings {
        self.settings
    }

    /// Whether loading fell back to defaults.
    pub closed spec fn spec_used_default(&self) -> bool {
        self.used_default_settings
    }

    /// The state after a load: the loaded settings, or the defaults when
    /// loading failed.
    pub fn from_load(loaded: Result<CastellanSettings, SettingError>) -> (r: SettingsState)
        ensures
            loaded matches Ok(s) ==> (r.spec_settings() == s && !r.spec_used_default()),
            loaded is Err ==> r.spec_settings().tracing.level == LevelFilter::Debug
                && r.spec_settings().tracing.timestamp_mode == TimestampMode::Utc
                && r.spec_used_default(),
    {
        match loaded {
            Ok(settings) => SettingsState { settings, used_default_settings: false },
            Err(_) => SettingsState {
                settings: CastellanSettings::default(),
                used_default_settings: true,
            },
        }
    }

    /// The settings in use.
    pub fn settings(&self) -> (r: &CastellanSettings)
        ensures
            *r == self.spec_settings(),
    {
        &self.settings
    }

    /// Reports whether startup fell back to default settings.
    pub fn used_default_settings(&self) -> (r: bool)
        ensures
            r == self.spec_used_default(),
    {
        self.used_default_settings
    }
}

} // verus!
