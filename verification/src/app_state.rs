//! Miscellaneous per-process UI state: a click counter kept alongside the
//! player and reset on demand.

use vstd::prelude::*;

verus! {

/// Application-level state shared with the UI shell.
#[derive(Clone, Copy, Debug, PartialEq, Eq, Structural)]
pub struct AppState {
    pub clicks: i32,
}

impl Default for AppState {
    fn default() -> (r: Self)
        ensures
            r.clicks == 0,
    {
        AppState { clicks: 0 }
    }
}

impl AppState {
    /// Record one more click.
    pub fn increment_click(&mut self)
        requires
            old(self).clicks < i32::MAX,
        ensures
            final(self).clicks == old(self).clicks + 1,
    {
        self.clicks = self.clicks + 1;
    }

    /// Drop the count back to zero.
    pub fn reset_clicks(&mut self)
        ensures
            final(self).clicks == 0,
    {
        self.clicks = 0;
    }
}

} // verus!
