//! What the viewer refuses to do.

use vstd::prelude::*;

verus! {

/// Why an operation of the viewer was not carried out.
#[derive(Debug, Clone, Copy, PartialEq, Eq, Structural)]
pub enum ViewerError {
    /// There is no picture to show.
    NoImages,
    /// The picture has a side that is not at least one pixel long, so
    /// there is nothing to fit into the window.
    EmptyImage,
    /// The picture is the only one left, and the list may not become empty.
    SoleImage,
}

} // verus!
