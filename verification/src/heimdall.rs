//! The plugin handle registered with the host process.  The host drives
//! it through lifecycle hooks that stay outside the verified library;
//! the handle itself carries no state.

use vstd::prelude::*;

verus! {

/// The plugin handle.
#[derive(Debug)]
pub struct Heimdall {}

impl Default for Heimdall {
    fn default() -> (r: Self)
        ensures
            r == (Heimdall {  }),
    {
        Heimdall {  }
    }
}

impl Heimdall {
    pub fn new() -> (r: Self)
        ensures
            r == (Heimdall {  }),
    {
        Heimdall {  }
    }
}

} // verus!
