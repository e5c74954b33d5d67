//! Settings load failures.
use vstd::prelude::*;

use crate::text::owned;

verus! {

/// Setting parse/load failure for file and env sources.
#[derive(Clone, Copy, Debug, PartialEq, Eq, Structural)]
pub enum SettingError {
    /// The sources could not be read or did not fit the settings model.
    DeserializeError,
}

impl SettingError {
    /// The error's message.
    pub fn message(&self) -> (r: String)
        ensures
            r@ == "Could not parse setting from file or env vars"@,
    {
        owned("Could not parse setting from file or env vars")
    }
}

} // verus!
