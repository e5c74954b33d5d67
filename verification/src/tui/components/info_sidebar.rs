//! Information sidebar.
use vstd::prelude::*;

use crate::text::owned;

verus! {

/// Sidebar with auxiliary information.
#[derive(Clone, Copy, Debug)]
pub struct InfoSidebar;

impl InfoSidebar {
    /// Creates the sidebar.
    pub fn new() -> (r: Self) {
        Self
    }

    /// The sidebar's text.
    pub fn content(&self) -> (r: String)
        ensures
            r@ == "metadata / useful info"@,
    {
        owned("metadata / useful info")
    }
}

} // verus!
