//! Tracing settings model.
use vstd::prelude::*;

use crate::logging::app_console_layer::TimestampMode;
use crate::settings::settings_logging::LevelFilter;

verus! {

/// Logging configuration used during subscriber initialization.
#[derive(Clone, Copy, Debug)]
pub struct TracingSettings {
    /// Minimum level emitted for application targets.
    pub level: LevelFilter,
    /// Timestamp format for console events.
    pub timestamp_mode: TimestampMode,
}

/// Provides stable defaults when settings are missing or invalid.
impl Default for TracingSettings {
    fn default() -> (r: Self)
        ensures
            r.level == LevelFilter::Debug,
            r.timestamp_mode == TimestampMode::Utc,
    {
        Self { level: LevelFilter::Debug, timestamp_mode: TimestampMode::Utc }
    }
}

} // verus!
