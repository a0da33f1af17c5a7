use rebase_core::config::Config;
use rebase_core::input::input_handler::{InputHandler, InputMode};
use rebase_core::input::Input;

fn test_config() -> Config {
    Config {
        input_abort: "q".to_string(),
        input_action_break: "b".to_string(),
        input_action_drop: "d".to_string(),
        input_action_edit: "e".to_string(),
        input_action_fixup: "f".to_string(),
        input_action_pick: "p".to_string(),
        input_action_reword: "r".to_string(),
        input_action_squash: "s".to_string(),
        input_confirm_yes: "Y".to_string(),
        input_edit: "E".to_string(),
        input_force_abort: "Q".to_string(),
        input_force_rebase: "W".to_string(),
        input_help: "?".to_string(),
        input_move_down: "Down".to_string(),
        input_move_down_step: "PageDown".to_string(),
        input_move_left: "Left".to_string(),
        input_move_right: "Right".to_string(),
        input_move_selection_down: "j".to_string(),
        input_move_selection_up: "k".to_string(),
        input_move_up: "Up".to_string(),
        input_move_up_step: "PageUp".to_string(),
        input_open_in_external_editor: "!".to_string(),
        input_rebase: "w".to_string(),
        input_show_commit: "c".to_string(),
        input_show_diff: "D".to_string(),
        input_toggle_visual_mode: "v".to_string(),
    }
}

#[test]
fn get_input_maps_global_bindings_in_any_mode() {
    let handler = InputHandler::new(test_config());
    assert_eq!(handler.get_input(InputMode::Other, "q"), Input::Abort);
    assert_eq!(handler.get_input(InputMode::ShowCommit, "?"), Input::Help);
    assert_eq!(handler.get_input(InputMode::Other, "Down"), Input::MoveCursorDown);
    assert_eq!(handler.get_input(InputMode::Other, "Up"), Input::MoveCursorUp);
    assert_eq!(handler.get_input(InputMode::ShowCommit, "PageUp"), Input::MoveCursorPageUp);
    assert_eq!(handler.get_input(InputMode::Other, "PageDown"), Input::MoveCursorPageDown);
    assert_eq!(handler.get_input(InputMode::Other, "w"), Input::Rebase);
    assert_eq!(handler.get_input(InputMode::ShowCommit, "D"), Input::ShowDiff);
}

#[test]
fn get_input_recognizes_actions_only_in_list_mode() {
    let handler = InputHandler::new(test_config());
    assert_eq!(handler.get_input(InputMode::List, "p"), Input::ActionPick);
    assert_eq!(handler.get_input(InputMode::List, "b"), Input::ActionBreak);
    assert_eq!(handler.get_input(InputMode::List, "v"), Input::ToggleVisualMode);
    assert_eq!(handler.get_input(InputMode::List, "c"), Input::ShowCommit);
    assert_eq!(handler.get_input(InputMode::ShowCommit, "p"), Input::Other);
    assert_eq!(handler.get_input(InputMode::Other, "b"), Input::Other);
    assert_eq!(handler.get_input(InputMode::Other, "v"), Input::Other);
}

#[test]
fn get_input_resize_short_circuits() {
    let handler = InputHandler::new(test_config());
    assert_eq!(handler.get_input(InputMode::Other, "Resize"), Input::Resize);
    assert_eq!(handler.get_input(InputMode::List, "Resize"), Input::Resize);
}

#[test]
fn get_input_unknown_key_is_other() {
    let handler = InputHandler::new(test_config());
    assert_eq!(handler.get_input(InputMode::List, "zz"), Input::Other);
}

#[test]
fn confirm_matches_case_insensitively() {
    let handler = InputHandler::new(test_config());
    assert_eq!(handler.confirm_from_char('y'), Input::Yes);
    assert_eq!(handler.confirm_from_char('Y'), Input::Yes);
    assert_eq!(handler.confirm_from_char('n'), Input::No);
    assert_eq!(handler.confirm_from_char('N'), Input::No);
}

#[test]
fn confirm_key_defaults_when_unconfigured() {
    let mut config = test_config();
    config.input_confirm_yes = String::new();
    let handler = InputHandler::new(config);
    assert_eq!(handler.confirm_from_char('y'), Input::Yes);
    assert_eq!(handler.confirm_from_char('x'), Input::No);
}
