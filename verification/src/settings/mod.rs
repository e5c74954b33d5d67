//! Settings loading outcome and typed configuration models.
//!
//! Values come from `default.toml` and optional `CAST_*` environment
//! overrides; when they cannot be loaded, defaults are used and that fact is
//! recorded.
use vstd::prelude::*;

/// Settings load failures.
pub mod error;
/// Keybind settings models and key name parsing.
pub mod settings_keybinds;
/// Logging-related settings models.
pub mod settings_logging;
/// Transcript and viewport scroll settings models.
pub mod settings_scroll;

pub use error::SettingError;
use settings_keybinds::{default_keybinds, AppKeybindsSettings};
use settings_logging::{AppLogSettings, LevelFilter};
use settings_scroll::AppScrollSettings;

verus! {

/// Top-level settings object used by the application.
#[derive(Clone, Copy, Debug)]
pub struct CastellanSettings {
    /// Logging filter options.
    pub app_log: AppLogSettings,
    /// Command bindings grouped by interaction mode.
    pub keybinds: AppKeybindsSettings,
    /// Line and page movement amounts for transcript scrolling.
    pub scroll: AppScrollSettings,
}

/// Whether `s` holds the default of every setting.
pub open spec fn is_default_settings(s: CastellanSettings) -> bool {
    &&& s.app_log.level == LevelFilter::Debug
    &&& s.keybinds == default_keybinds()
    &&& s.scroll.line_step == 1
    &&& s.scroll.page_step == 10
}

impl Default for CastellanSettings {
    fn default() -> (r: Self)
        ensures
            is_default_settings(r),
    {
        CastellanSettings {
            app_log: AppLogSettings::default(),
            keybinds: AppKeybindsSettings::default(),
            scroll: AppScrollSettings::default(),
        }
    }
}

/// The settings in use, and whether loading fell back to defaults.
pub struct SettingsState {
    settings: CastellanSettings,
    used_default_settings: bool,
}

impl SettingsState {
    /// The settings in use.
    pub closed spec fn spec_settings(&self) -> CastellanSettings {
        self.settings
    }

    /// Whether loading fell back to defaults.
    pub closed spec fn spec_used_default(&self) -> bool {
        self.used_default_settings
    }

    /// The state after a load: the loaded settings, or the defaults when
    /// loading failed.
    pub fn from_load(loaded: Result<CastellanSettings, SettingError>) -> (r: SettingsState)
        ensures
            loaded matches Ok(s) ==> (r.spec_settings() == s && !r.spec_used_default()),
            loaded is Err ==> is_default_settings(r.spec_settings()) && r.spec_used_default(),
    {
        match loaded {
            Ok(settings) => SettingsState { settings, used_default_settings: false },
            Err(_) => SettingsState {
                settings: CastellanSettings::default(),
                used_default_settings: true,
            },
        }
    }

    /// The settings in use.
    pub fn settings(&self) -> (r: &CastellanSettings)
        ensures
            *r == self.spec_settings(),
    {
        &self.settings
    }

    /// Reports whether startup fell back to default settings.
    pub fn used_default_settings(&self) -> (r: bool)
        ensures
            r == self.spec_used_default(),
    {
        self.used_default_settings
    }
}

} // verus!
