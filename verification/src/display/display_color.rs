//! The palette role a piece of rendered text is painted with.

use vstd::prelude::*;

verus! {

/// The role-based color of one text segment.
#[derive(Clone, Copy, Debug, PartialEq, Eq, Structural)]
pub enum DisplayColor {
    Normal,
    IndicatorColor,
    DiffAddColor,
    DiffRemoveColor,
    DiffChangeColor,
}

} // verus!
