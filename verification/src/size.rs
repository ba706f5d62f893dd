//! Component sizes.

use vstd::prelude::*;

verus! {

/// The size of a component.
#[derive(Clone, Copy, Debug, PartialEq, Eq, Structural)]
pub enum Size {
    XSmall,
    Small,
    Medium,
    Large,
}

impl Default for Size {
    /// Components are medium-sized unless told otherwise.
    fn default() -> (s: Self)
        ensures
            s == Size::Medium,
    {
        Size::Medium
    }
}

} // verus!
