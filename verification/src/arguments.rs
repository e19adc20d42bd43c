//! What the program was started with.

use vstd::prelude::*;

verus! {

/// The options of one run.
#[derive(Clone, Copy, Debug, PartialEq, Eq, Structural)]
pub struct Context {
    debug_asset_loader: bool,
}

impl Context {
    pub closed spec fn spec_debug_asset_loader(&self) -> bool {
        self.debug_asset_loader
    }

    pub fn new(debug_asset_loader: bool) -> (r: Context)
        ensures
            r.spec_debug_asset_loader() == debug_asset_loader,
    {
        Context { debug_asset_loader }
    }

    /// Whether the asset loader reports what it does.
    pub fn debug_asset_loader(&self) -> (r: bool)
        ensures
            r == self.spec_debug_asset_loader(),
    {
        self.debug_asset_loader
    }
}

} // verus!
