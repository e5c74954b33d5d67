//! Earlier settings model: the log level alone.
use vstd::prelude::*;

verus! {

/// Log levels as named in configuration.
#[allow(non_camel_case_types)]
#[derive(Clone, Copy, Debug, PartialEq, Eq, Structural)]
pub enum AppLogLevel {
    TRACE,
    DEBUG,
    INFO,
    WARN,
    ERROR,
}

impl Default for AppLogLevel {
    fn default() -> (r: Self)
        ensures
            r == AppLogLevel::TRACE,
    {
        AppLogLevel::TRACE
    }
}

/// Logging settings.
#[derive(Clone, Copy, Debug)]
pub struct AppLogSettings {
    pub level: AppLogLevel,
}

impl Default for AppLogSettings {
    fn default() -> (r: Self)
        ensures
            r.level == AppLogLevel::TRACE,
    {
        AppLogSettings { level: AppLogLevel::default() }
    }
}

/// Top-level settings of this model.
#[derive(Clone, Copy, Debug)]
pub struct CastellanSettings {
    app_log: AppLogSettings,
}

impl CastellanSettings {
    /// Settings with the given logging part.
    pub fn with_app_log(app_log: AppLogSettings) -> (r: Self)
        ensures
            r.spec_app_log() == app_log,
    {
        CastellanSettings { app_log }
    }

    /// The logging part.
    pub closed spec fn spec_app_log(&self) -> AppLogSettings {
        self.app_log
    }

    /// The logging part.
    pub fn app_log(&self) -> (r: &AppLogSettings)
        ensures
            *r == self.spec_app_log(),
    {
        &self.app_log
    }
}

impl Default for CastellanSettings {
    fn default() -> (r: Self)
        ensures
            r.spec_app_log().level == AppLogLevel::TRACE,
    {
        CastellanSettings { app_log: AppLogSettings::default() }
    }
}

} // verus!
