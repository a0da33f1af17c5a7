//! The input vocabulary and the key-to-command mapping: a configured lookup
//! from raw key strings to inputs, sensitive to the current mode.

pub mod input_handler;

use vstd::prelude::*;

verus! {

/// Everything a keystroke can mean to the tool.
#[derive(Clone, Copy, Debug, PartialEq, Eq, Structural)]
pub enum Input {
    Abort,
    ActionBreak,
    ActionDrop,
    ActionEdit,
    ActionFixup,
    ActionPick,
    ActionReword,
    ActionSquash,
    Backspace,
    Character(char),
    Delete,
    Edit,
    Enter,
    ForceAbort,
    ForceRebase,
    Help,
    MoveCursorDown,
    MoveCursorLeft,
    MoveCursorPageDown,
    MoveCursorPageUp,
    MoveCursorRight,
    MoveCursorUp,
    No,
    OpenInEditor,
    Other,
    Rebase,
    Resize,
    ShowCommit,
    ShowDiff,
    SwapSelectedDown,
    SwapSelectedUp,
    ToggleVisualMode,
    Yes,
}

} // verus!
