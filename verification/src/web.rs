//! The web UI that the server can ship with.

use vstd::prelude::*;

verus! {

/// The built web UI.
pub struct WebUI;

impl WebUI {
    /// Whether the web UI is shipped with this build. This build is made
    /// without it.
    pub fn enabled() -> (r: bool)
        ensures
            !r,
    {
        false
    }
}

} // verus!
