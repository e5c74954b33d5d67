//! File logging layer handle.
use vstd::prelude::*;

verus! {

/// Placeholder tracing layer for application file logging.
#[derive(Clone, Copy, Debug)]
pub struct AppFileLayer;

impl AppFileLayer {
    /// Creates the file logging layer.
    pub fn new() -> (r: Self) {
        Self {}
    }
}

} // verus!
