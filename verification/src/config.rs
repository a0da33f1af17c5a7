//! The configured key bindings: one raw key string per command, passed in
//! explicitly at construction.

use vstd::prelude::*;

verus! {

/// Key bindings for every recognized command, plus the confirmation key.
#[derive(Debug)]
pub struct Config {
    pub input_abort: String,
    pub input_action_break: String,
    pub input_action_drop: String,
    pub input_action_edit: String,
    pub input_action_fixup: String,
    pub input_action_pick: String,
    pub input_action_reword: String,
    pub input_action_squash: String,
    pub input_confirm_yes: String,
    pub input_edit: String,
    pub input_force_abort: String,
    pub input_force_rebase: String,
    pub input_help: String,
    pub input_move_down: String,
    pub input_move_down_step: String,
    pub input_move_left: String,
    pub input_move_right: String,
    pub input_move_selection_down: String,
    pub input_move_selection_up: String,
    pub input_move_up: String,
    pub input_move_up_step: String,
    pub input_open_in_external_editor: String,
    pub input_rebase: String,
    pub input_show_commit: String,
    pub input_show_diff: String,
    pub input_toggle_visual_mode: String,
}

} // verus!
