//! The view that fills a window in which nothing is shown.

use vstd::prelude::*;

verus! {

/// A view that shows nothing.
#[derive(Clone, Copy, Debug, PartialEq, Eq)]
pub struct EmptyView;

impl EmptyView {
    /// What the view is called.
    pub fn ui_name() -> (name: &'static str)
        ensures
            name@ == "empty view"@,
    {
        "empty view"
    }
}

} // verus!
