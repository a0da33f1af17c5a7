//! The two display modes of the commit view.

use vstd::prelude::*;

verus! {

/// Which projection of the commit is shown.
#[derive(Clone, Copy, Debug, PartialEq, Eq, Structural)]
pub enum ShowCommitState {
    Overview,
    Diff,
}

} // verus!
