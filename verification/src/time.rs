use vstd::prelude::*;

verus! {

/// A frequency in hertz.
#[derive(Clone, Copy, Debug, PartialEq, Eq, Structural)]
pub struct Hertz(pub u32);

impl Hertz {
    /// The frequency as a number of hertz.
    pub open spec fn hz(self) -> nat {
        self.0 as nat
    }
}

} // verus!
