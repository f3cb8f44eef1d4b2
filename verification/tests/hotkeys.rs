use openrec::config::HotkeyConfig;
use openrec::hotkeys::{action_for_shortcut, parse_keybinding, HotkeyAction, HotkeyService};

#[test]
fn test_hotkey_action_variants() {
    assert_ne!(HotkeyAction::ToggleRecording, HotkeyAction::CancelRecording);
    assert_eq!(HotkeyAction::ToggleRecording, HotkeyAction::ToggleRecording);
}

#[test]
fn test_hotkey_config_parsing_with_modifiers() {
    let kb = parse_keybinding("Super+Shift+R");
    assert_eq!(kb.modifiers, vec!["Super", "Shift"]);
    assert_eq!(kb.key, "R");
}

#[test]
fn test_hotkey_config_parsing_single_key() {
    let kb = parse_keybinding("Escape");
    assert!(kb.modifiers.is_empty());
    assert_eq!(kb.key, "Escape");
}

#[test]
fn test_hotkey_config_parsing_two_parts() {
    let kb = parse_keybinding("Ctrl+C");
    assert_eq!(kb.modifiers, vec!["Ctrl"]);
    assert_eq!(kb.key, "C");
}

#[test]
fn keybinding_pieces_are_trimmed() {
    let kb = parse_keybinding("  Ctrl + Alt +\tDelete ");
    assert_eq!(kb.modifiers, vec!["Ctrl", "Alt"]);
    assert_eq!(kb.key, "Delete");
}

#[test]
fn keybinding_single_key_is_trimmed() {
    let kb = parse_keybinding("\u{3000} F12 \n");
    assert!(kb.modifiers.is_empty());
    assert_eq!(kb.key, "F12");
}

#[test]
fn keybinding_empty_pieces_are_kept() {
    let kb = parse_keybinding("Ctrl++");
    assert_eq!(kb.modifiers, vec!["Ctrl", ""]);
    assert_eq!(kb.key, "");
    let kb = parse_keybinding("");
    assert!(kb.modifiers.is_empty());
    assert_eq!(kb.key, "");
}

#[test]
fn shortcut_ids_map_to_actions() {
    assert_eq!(action_for_shortcut("toggle-recording"), Some(HotkeyAction::ToggleRecording));
    assert_eq!(action_for_shortcut("cancel-recording"), Some(HotkeyAction::CancelRecording));
    assert_eq!(action_for_shortcut("something-else"), None);
}

#[test]
fn test_hotkey_service_creates_shortcuts() {
    let config = HotkeyConfig::default();
    let service = HotkeyService::new(&config);
    assert_eq!(service.shortcuts.len(), 2);
}

#[test]
fn hotkey_service_uses_configured_triggers() {
    let config = HotkeyConfig {
        toggle_recording: "Ctrl+F9".to_string(),
        cancel_recording: "Ctrl+F10".to_string(),
    };
    let service = HotkeyService::new(&config);
    assert_eq!(service.shortcuts[0].id, "toggle-recording");
    assert_eq!(service.shortcuts[0].preferred_trigger, "Ctrl+F9");
    assert_eq!(service.shortcuts[1].id, "cancel-recording");
    assert_eq!(service.shortcuts[1].preferred_trigger, "Ctrl+F10");
    assert_eq!(service.shortcuts[1].description, "Отменить запись");
}

#[test]
fn keybinding_round_trip() {
    let mods = vec!["Ctrl".to_string(), "Alt".to_string()];
    let key = "Delete".to_string();
    let text = format!("{}+{}", mods.join("+"), key);
    let kb = parse_keybinding(&text);
    assert_eq!(kb.modifiers, mods);
    assert_eq!(kb.key, key);
}

#[test]
fn keybinding_modifier_count_matches_plus_signs() {
    for s in ["a", "a+b", " Super + Shift + R ", "++", "+", "x+y+z+w"] {
        let kb = parse_keybinding(s);
        assert_eq!(kb.modifiers.len(), s.matches('+').count(), "{s}");
        assert!(!kb.key.contains('+'));
        assert!(kb.modifiers.iter().all(|m| !m.contains('+')));
    }
}
