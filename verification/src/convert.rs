//! A conversion trait that can be implemented for any pair of types.

use vstd::prelude::*;

verus! {

/// As `From` and `Into`, without their restrictions on foreign types.
pub trait Convert<Into>: Sized {
    /// The value that the conversion yields.
    spec fn spec_convert(self) -> Into;

    fn convert(self) -> (r: Into)
        ensures
            r == self.spec_convert(),
    ;
}

/// Every type converts into itself.
impl<T> Convert<T> for T {
    open spec fn spec_convert(self) -> T {
        self
    }

    fn convert(self) -> (r: T) {
        self
    }
}

} // verus!
