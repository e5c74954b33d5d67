//! Scroll settings for transcript navigation behavior.
use vstd::prelude::*;

verus! {

/// Configurable step sizes for chat transcript movement.
#[derive(Clone, Copy, Debug)]
pub struct AppScrollSettings {
    /// Wrapped-line step used by incremental up/down commands.
    pub line_step: usize,
    /// Wrapped-line step used by page up/down commands.
    pub page_step: usize,
}

/// Default scroll step sizes used when not configured.
impl Default for AppScrollSettings {
    fn default() -> (r: Self)
        ensures
            r.line_step == 1,
            r.page_step == 10,
    {
        Self { line_step: 1, page_step: 10 }
    }
}

} // verus!
