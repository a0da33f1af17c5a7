//! The key-to-command lookup: maps an already-read key string to an input,
//! recognizing the rebase actions only in list mode.

use crate::config::Config;
use crate::input::Input;
use crate::strutil::str_eq;
use crate::unicode::{lower_char_of, lower_of, lowercase_char, lowercase_str};
use vstd::prelude::*;
use vstd::string::*;

verus! {

/// The mode the tool is in when a key arrives.
#[derive(Clone, Copy, Debug, PartialEq, Eq, Structural)]
pub enum InputMode {
    List,
    ShowCommit,
    Other,
}

/// The confirmation key a configuration denotes: the first character of the
/// lowercased configured string, or `y` when it is empty.
pub open spec fn spec_confirm_yes_char(configured: Seq<char>) -> char {
    if lower_of(configured).len() > 0 {
        lower_of(configured)[0]
    } else {
        'y'
    }
}

/// The input a key string maps to under a configuration and a mode. Earlier
/// bindings shadow later ones; the rebase actions bind only in list mode; a
/// resize signal short-circuits; everything else is other.
pub open spec fn spec_input_of(c: Config, mode: InputMode, i: Seq<char>) -> Input {
    if i == c.input_abort@ {
        Input::Abort
    } else if mode == InputMode::List && i == c.input_action_break@ {
        Input::ActionBreak
    } else if mode == InputMode::List && i == c.input_action_drop@ {
        Input::ActionDrop
    } else if i == c.input_help@ {
        Input::Help
    } else if mode == InputMode::List && i == c.input_action_edit@ {
        Input::ActionEdit
    } else if mode == InputMode::List && i == c.input_action_fixup@ {
        Input::ActionFixup
    } else if mode == InputMode::List && i == c.input_action_pick@ {
        Input::ActionPick
    } else if mode == InputMode::List && i == c.input_action_reword@ {
        Input::ActionReword
    } else if mode == InputMode::List && i == c.input_action_squash@ {
        Input::ActionSquash
    } else if mode == InputMode::List && i == c.input_edit@ {
        Input::Edit
    } else if mode == InputMode::List && i == c.input_force_abort@ {
        Input::ForceAbort
    } else if mode == InputMode::List && i == c.input_force_rebase@ {
        Input::ForceRebase
    } else if i == c.input_move_down@ {
        Input::MoveCursorDown
    } else if i == c.input_move_left@ {
        Input::MoveCursorLeft
    } else if i == c.input_move_right@ {
        Input::MoveCursorRight
    } else if i == c.input_move_selection_down@ {
        Input::SwapSelectedDown
    } else if i == c.input_move_selection_up@ {
        Input::SwapSelectedUp
    } else if i == c.input_move_up@ {
        Input::MoveCursorUp
    } else if mode == InputMode::List && i == c.input_open_in_external_editor@ {
        Input::OpenInEditor
    } else if i == c.input_rebase@ {
        Input::Rebase
    } else if mode == InputMode::List && i == c.input_show_commit@ {
        Input::ShowCommit
    } else if i == c.input_show_diff@ {
        Input::ShowDiff
    } else if mode == InputMode::List && i == c.input_toggle_visual_mode@ {
        Input::ToggleVisualMode
    } else if i == c.input_move_up_step@ {
        Input::MoveCursorPageUp
    } else if i == c.input_move_down_step@ {
        Input::MoveCursorPageDown
    } else if i == "Resize"@ {
        Input::Resize
    } else {
        Input::Other
    }
}

/// Maps key strings to inputs against a fixed configuration.
#[derive(Debug)]
pub struct InputHandler {
    pub config: Config,
    pub confirm_yes_input: char,
}

impl InputHandler {
    /// Fix the configuration and derive the confirmation key from it.
    pub fn new(config: Config) -> (r: Self)
        ensures
            r.config == config,
            r.confirm_yes_input == spec_confirm_yes_char(config.input_confirm_yes@),
    {
        let lowered = lowercase_str(config.input_confirm_yes.as_str());
        let confirm_yes_input = if lowered.as_str().unicode_len() > 0 {
            lowered.as_str().get_char(0)
        } else {
            'y'
        };
        InputHandler { config, confirm_yes_input }
    }

    /// Map one key string to an input under the current mode.
    pub fn get_input(&self, mode: InputMode, input: &str) -> (r: Input)
        ensures
            r == spec_input_of(self.config, mode, input@),
    {
        let is_list = mode == InputMode::List;
        if str_eq(input, self.config.input_abort.as_str()) {
            Input::Abort
        } else if is_list && str_eq(input, self.config.input_action_break.as_str()) {
            Input::ActionBreak
        } else if is_list && str_eq(input, self.config.input_action_drop.as_str()) {
            Input::ActionDrop
        } else if str_eq(input, self.config.input_help.as_str()) {
            Input::Help
        } else if is_list && str_eq(input, self.config.input_action_edit.as_str()) {
            Input::ActionEdit
        } else if is_list && str_eq(input, self.config.input_action_fixup.as_str()) {
            Input::ActionFixup
        } else if is_list && str_eq(input, self.config.input_action_pick.as_str()) {
            Input::ActionPick
        } else if is_list && str_eq(input, self.config.input_action_reword.as_str()) {
            Input::ActionReword
        } else if is_list && str_eq(input, self.config.input_action_squash.as_str()) {
            Input::ActionSquash
        } else if is_list && str_eq(input, self.config.input_edit.as_str()) {
            Input::Edit
        } else if is_list && str_eq(input, self.config.input_force_abort.as_str()) {
            Input::ForceAbort
        } else if is_list && str_eq(input, self.config.input_force_rebase.as_str()) {
            Input::ForceRebase
        } else if str_eq(input, self.config.input_move_down.as_str()) {
            Input::MoveCursorDown
        } else if str_eq(input, self.config.input_move_left.as_str()) {
            Input::MoveCursorLeft
        } else if str_eq(input, self.config.input_move_right.as_str()) {
            Input::MoveCursorRight
        } else if str_eq(input, self.config.input_move_selection_down.as_str()) {
            Input::SwapSelectedDown
        } else if str_eq(input, self.config.input_move_selection_up.as_str()) {
            Input::SwapSelectedUp
        } else if str_eq(input, self.config.input_move_up.as_str()) {
            Input::MoveCursorUp
        } else if is_list && str_eq(input, self.config.input_open_in_external_editor.as_str()) {
            Input::OpenInEditor
        } else if str_eq(input, self.config.input_rebase.as_str()) {
            Input::Rebase
        } else if is_list && str_eq(input, self.config.input_show_commit.as_str()) {
            Input::ShowCommit
        } else if str_eq(input, self.config.input_show_diff.as_str()) {
            Input::ShowDiff
        } else if is_list && str_eq(input, self.config.input_toggle_visual_mode.as_str()) {
            Input::ToggleVisualMode
        } else if str_eq(input, self.config.input_move_up_step.as_str()) {
            Input::MoveCursorPageUp
        } else if str_eq(input, self.config.input_move_down_step.as_str()) {
            Input::MoveCursorPageDown
        } else if str_eq(input, "Resize") {
            Input::Resize
        } else {
            Input::Other
        }
    }

    /// Resolve one read character at a confirm prompt: yes exactly when its
    /// lowercase form matches the configured confirmation key.
    pub fn confirm_from_char(&self, c: char) -> (r: Input)
        ensures
            r == (if lower_char_of(c) == self.confirm_yes_input {
                Input::Yes
            } else {
                Input::No
            }),
    {
        if lowercase_char(c) == self.confirm_yes_input {
            Input::Yes
        } else {
            Input::No
        }
    }
}

} // verus!
