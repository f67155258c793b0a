//! Space that the bars take from the four sides of the preview.

use vstd::prelude::*;

verus! {

/// One value for each side of the preview.
#[derive(Clone, Copy, Debug, PartialEq, Eq, Structural)]
pub struct BarInsets<T> {
    pub top: T,
    pub right: T,
    pub bottom: T,
    pub left: T,
}

} // verus!
