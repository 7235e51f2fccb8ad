//! How a view of code or pixels is used.
use vstd::prelude::*;

verus! {

/// What a view shows and lets the user do.
#[derive(Clone, Copy, Debug, PartialEq, Eq, Structural)]
pub enum TheRGBAViewMode {
    Display,
    TileSelection,
    TileEditor,
}

} // verus!
