use voice_input::voice_commands::{
    check_voice_command, list_commands, normalize, KeyAction, VoiceAction, VoiceCommandResult,
};

// ── Basic Command Recognition ────────────────────────────────────

#[test]
fn test_enter_command_english() {
    match check_voice_command("press enter") {
        VoiceCommandResult::Command(cmd) => {
            assert_eq!(cmd.action, VoiceAction::KeyPress(KeyAction::Enter));
        }
        VoiceCommandResult::Text(_) => panic!("Expected command, got text"),
    }
}

#[test]
fn test_enter_command_russian() {
    match check_voice_command("нажми ввод") {
        VoiceCommandResult::Command(cmd) => {
            assert_eq!(cmd.action, VoiceAction::KeyPress(KeyAction::Enter));
        }
        VoiceCommandResult::Text(_) => panic!("Expected command, got text"),
    }
}

#[test]
fn test_new_line() {
    match check_voice_command("new line") {
        VoiceCommandResult::Command(cmd) => {
            assert_eq!(cmd.action, VoiceAction::KeyPress(KeyAction::Enter));
        }
        VoiceCommandResult::Text(_) => panic!("Expected command, got text"),
    }
}

#[test]
fn test_delete_all_english() {
    match check_voice_command("delete all") {
        VoiceCommandResult::Command(cmd) => {
            assert_eq!(
                cmd.action,
                VoiceAction::KeyCombo(vec![
                    KeyAction::Control,
                    KeyAction::Key('a'),
                    KeyAction::Delete,
                ])
            );
        }
        VoiceCommandResult::Text(_) => panic!("Expected command, got text"),
    }
}

#[test]
fn test_delete_all_russian() {
    match check_voice_command("сотри все") {
        VoiceCommandResult::Command(cmd) => {
            assert_eq!(cmd.description, "Delete All (Ctrl+A, Delete)");
        }
        VoiceCommandResult::Text(_) => panic!("Expected command, got text"),
    }
}

#[test]
fn test_delete_all_russian_yo() {
    match check_voice_command("сотри всё") {
        VoiceCommandResult::Command(cmd) => {
            assert_eq!(cmd.description, "Delete All (Ctrl+A, Delete)");
        }
        VoiceCommandResult::Text(_) => panic!("Expected command, got text"),
    }
}

// ── Case Insensitivity ──────────────────────────────────────────

#[test]
fn test_case_insensitive() {
    match check_voice_command("Press Enter") {
        VoiceCommandResult::Command(cmd) => {
            assert_eq!(cmd.action, VoiceAction::KeyPress(KeyAction::Enter));
        }
        VoiceCommandResult::Text(_) => panic!("Expected command, got text"),
    }
}

#[test]
fn test_all_caps() {
    match check_voice_command("SELECT ALL") {
        VoiceCommandResult::Command(cmd) => {
            assert_eq!(
                cmd.action,
                VoiceAction::KeyCombo(vec![KeyAction::Control, KeyAction::Key('a')])
            );
        }
        VoiceCommandResult::Text(_) => panic!("Expected command, got text"),
    }
}

// ── Whitespace Handling ─────────────────────────────────────────

#[test]
fn test_extra_whitespace() {
    match check_voice_command("  press   enter  ") {
        VoiceCommandResult::Command(cmd) => {
            assert_eq!(cmd.action, VoiceAction::KeyPress(KeyAction::Enter));
        }
        VoiceCommandResult::Text(_) => panic!("Expected command, got text"),
    }
}

// ── Trailing Punctuation Stripping ───────────────────────────────

#[test]
fn test_trailing_period() {
    match check_voice_command("press enter.") {
        VoiceCommandResult::Command(cmd) => {
            assert_eq!(cmd.action, VoiceAction::KeyPress(KeyAction::Enter));
        }
        VoiceCommandResult::Text(_) => panic!("Expected command, got text"),
    }
}

#[test]
fn test_trailing_comma() {
    match check_voice_command("undo,") {
        VoiceCommandResult::Command(cmd) => {
            assert_eq!(
                cmd.action,
                VoiceAction::KeyCombo(vec![KeyAction::Control, KeyAction::Key('z')])
            );
        }
        VoiceCommandResult::Text(_) => panic!("Expected command, got text"),
    }
}

// ── Non-Command Text ────────────────────────────────────────────

#[test]
fn test_normal_text_not_command() {
    match check_voice_command("I want to press enter to continue") {
        VoiceCommandResult::Text(text) => {
            assert_eq!(text, "I want to press enter to continue");
        }
        VoiceCommandResult::Command(_) => panic!("Expected text, got command"),
    }
}

#[test]
fn test_empty_text() {
    match check_voice_command("") {
        VoiceCommandResult::Text(text) => {
            assert_eq!(text, "");
        }
        VoiceCommandResult::Command(_) => panic!("Expected text, got command"),
    }
}

#[test]
fn test_partial_match_not_command() {
    match check_voice_command("delete the file") {
        VoiceCommandResult::Text(_) => {}
        VoiceCommandResult::Command(_) => panic!("Should not match partial text"),
    }
}

// ── Specific Commands ───────────────────────────────────────────

#[test]
fn test_undo_command() {
    match check_voice_command("undo") {
        VoiceCommandResult::Command(cmd) => {
            assert_eq!(
                cmd.action,
                VoiceAction::KeyCombo(vec![KeyAction::Control, KeyAction::Key('z')])
            );
        }
        VoiceCommandResult::Text(_) => panic!("Expected command"),
    }
}

#[test]
fn test_redo_command() {
    match check_voice_command("redo") {
        VoiceCommandResult::Command(cmd) => {
            assert_eq!(
                cmd.action,
                VoiceAction::KeyCombo(vec![KeyAction::Control, KeyAction::Key('y')])
            );
        }
        VoiceCommandResult::Text(_) => panic!("Expected command"),
    }
}

#[test]
fn test_copy_command() {
    match check_voice_command("copy") {
        VoiceCommandResult::Command(cmd) => {
            assert_eq!(cmd.description, "Copy (Ctrl+C)");
        }
        VoiceCommandResult::Text(_) => panic!("Expected command"),
    }
}

#[test]
fn test_save_command() {
    match check_voice_command("save") {
        VoiceCommandResult::Command(cmd) => {
            assert_eq!(cmd.description, "Save (Ctrl+S)");
        }
        VoiceCommandResult::Text(_) => panic!("Expected command"),
    }
}

#[test]
fn test_tab_command() {
    match check_voice_command("tab") {
        VoiceCommandResult::Command(cmd) => {
            assert_eq!(cmd.action, VoiceAction::KeyPress(KeyAction::Tab));
        }
        VoiceCommandResult::Text(_) => panic!("Expected command"),
    }
}

#[test]
fn test_backspace_command() {
    match check_voice_command("backspace") {
        VoiceCommandResult::Command(cmd) => {
            assert_eq!(cmd.action, VoiceAction::KeyPress(KeyAction::Backspace));
        }
        VoiceCommandResult::Text(_) => panic!("Expected command"),
    }
}

#[test]
fn test_delete_word_russian() {
    match check_voice_command("удали слово") {
        VoiceCommandResult::Command(cmd) => {
            assert_eq!(cmd.description, "Delete Word (Ctrl+Backspace)");
        }
        VoiceCommandResult::Text(_) => panic!("Expected command"),
    }
}

#[test]
fn test_arrow_keys() {
    match check_voice_command("up") {
        VoiceCommandResult::Command(cmd) => {
            assert_eq!(cmd.action, VoiceAction::KeyPress(KeyAction::Up));
        }
        VoiceCommandResult::Text(_) => panic!("Expected command"),
    }

    match check_voice_command("вниз") {
        VoiceCommandResult::Command(cmd) => {
            assert_eq!(cmd.action, VoiceAction::KeyPress(KeyAction::Down));
        }
        VoiceCommandResult::Text(_) => panic!("Expected command"),
    }
}

#[test]
fn test_punctuation_commands() {
    match check_voice_command("period") {
        VoiceCommandResult::Command(cmd) => {
            assert_eq!(cmd.action, VoiceAction::TypeText(".".to_string()));
        }
        VoiceCommandResult::Text(_) => panic!("Expected command"),
    }

    match check_voice_command("запятая") {
        VoiceCommandResult::Command(cmd) => {
            assert_eq!(cmd.action, VoiceAction::TypeText(",".to_string()));
        }
        VoiceCommandResult::Text(_) => panic!("Expected command"),
    }

    match check_voice_command("question mark") {
        VoiceCommandResult::Command(cmd) => {
            assert_eq!(cmd.action, VoiceAction::TypeText("?".to_string()));
        }
        VoiceCommandResult::Text(_) => panic!("Expected command"),
    }
}

// ── Russian Aliases ─────────────────────────────────────────────

#[test]
fn test_russian_new_line() {
    match check_voice_command("новая строка") {
        VoiceCommandResult::Command(cmd) => {
            assert_eq!(cmd.action, VoiceAction::KeyPress(KeyAction::Enter));
        }
        VoiceCommandResult::Text(_) => panic!("Expected command"),
    }
}

#[test]
fn test_russian_select_all() {
    match check_voice_command("выдели все") {
        VoiceCommandResult::Command(cmd) => {
            assert_eq!(cmd.description, "Select All (Ctrl+A)");
        }
        VoiceCommandResult::Text(_) => panic!("Expected command"),
    }
}

#[test]
fn test_russian_undo() {
    match check_voice_command("отмени") {
        VoiceCommandResult::Command(cmd) => {
            assert_eq!(cmd.description, "Undo (Ctrl+Z)");
        }
        VoiceCommandResult::Text(_) => panic!("Expected command"),
    }
}

#[test]
fn test_russian_copy() {
    match check_voice_command("скопируй") {
        VoiceCommandResult::Command(cmd) => {
            assert_eq!(cmd.description, "Copy (Ctrl+C)");
        }
        VoiceCommandResult::Text(_) => panic!("Expected command"),
    }
}

#[test]
fn test_russian_paste() {
    match check_voice_command("вставь") {
        VoiceCommandResult::Command(cmd) => {
            assert_eq!(cmd.description, "Paste (Ctrl+V)");
        }
        VoiceCommandResult::Text(_) => panic!("Expected command"),
    }
}

#[test]
fn test_russian_save() {
    match check_voice_command("сохрани") {
        VoiceCommandResult::Command(cmd) => {
            assert_eq!(cmd.description, "Save (Ctrl+S)");
        }
        VoiceCommandResult::Text(_) => panic!("Expected command"),
    }
}

// ── Normalize ───────────────────────────────────────────────────

#[test]
fn test_normalize() {
    assert_eq!(normalize("  Hello   World  "), "hello world");
    assert_eq!(normalize("PRESS ENTER"), "press enter");
    assert_eq!(normalize("нажми  ввод"), "нажми ввод");
    assert_eq!(normalize(""), "");
}

// ── List Commands ───────────────────────────────────────────────

#[test]
fn test_list_commands_not_empty() {
    let commands = list_commands();
    assert!(!commands.is_empty());
    assert!(commands.len() >= 10);
}

// ── Ordering of the command list ────────────────────────────────

#[test]
fn test_list_commands_sorted_by_phrase() {
    let commands = list_commands();
    for window in commands.windows(2) {
        assert!(window[0].0 <= window[1].0, "list not sorted: {:?}", window);
    }
}
