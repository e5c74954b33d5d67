//! Logging helpers: event line formatting and the layers' plain state.
use vstd::prelude::*;

/// Console layer formatting.
pub mod app_console_layer;
/// File layer handle.
pub mod app_file_layer;

use crate::text::{owned, push_str};

verus! {

/// Error returned when subscriber initialization fails.
#[derive(Clone, Debug)]
pub enum SubscriberErr {
    /// The global subscriber could not be set; the reason.
    InitializationError(String),
}

impl SubscriberErr {
    /// The error's message.
    pub fn message(&self) -> (r: String)
        ensures
            self matches SubscriberErr::InitializationError(m) ==> r@
                == "Failed to set global subscriber, "@ + m@,
    {
        match self {
            SubscriberErr::InitializationError(m) => {
                let mut r = owned("Failed to set global subscriber, ");
                push_str(&mut r, m.as_str());
                r
            },
        }
    }
}

} // verus!
