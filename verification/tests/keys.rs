use midas_app::keys::{key_command, parse_key, parse_named, split_modifiers, InputError, Key, KeyCommand, NamedKey};

#[test]
fn split_modifiers_ctrl_s() {
    let (mods, rest) = split_modifiers("Ctrl+S");
    assert!(mods.ctrl);
    assert!(!mods.shift);
    assert_eq!(rest, "S");
}

#[test]
fn split_modifiers_multi() {
    let (mods, rest) = split_modifiers("Ctrl+Shift+K");
    assert!(mods.ctrl);
    assert!(mods.shift);
    assert_eq!(rest, "K");
}

#[test]
fn split_modifiers_none() {
    let (mods, rest) = split_modifiers("Escape");
    assert!(!mods.ctrl);
    assert!(!mods.shift);
    assert_eq!(rest, "Escape");
}

#[test]
fn split_modifiers_aliases_and_case() {
    let (mods, rest) = split_modifiers("CONTROL+alt+Cmd+x");
    assert!(mods.ctrl && mods.alt && mods.logo && !mods.shift);
    assert_eq!(rest, "x");
}

#[test]
fn split_modifiers_stops_at_unknown_prefix() {
    let (mods, rest) = split_modifiers("Ctrl+Foo+K");
    assert!(mods.ctrl);
    assert_eq!(rest, "Foo+K");
}

#[test]
fn split_modifiers_trailing_plus() {
    let (mods, rest) = split_modifiers("Shift+");
    assert!(mods.shift);
    assert_eq!(rest, "");
}

#[test]
fn parse_escape() {
    let key = parse_key("Escape").unwrap();
    assert!(matches!(key, Key::Named(NamedKey::Escape)));
}

#[test]
fn parse_f11_case_insensitive() {
    let key = parse_key("f11").unwrap();
    assert!(matches!(key, Key::Named(NamedKey::F11)));
}

#[test]
fn parse_single_char() {
    let key = parse_key("n").unwrap();
    match key {
        Key::Character(c) => assert_eq!(c.as_str(), "n"),
        _ => panic!("expected Character"),
    }
}

#[test]
fn parse_empty_rejected() {
    assert!(parse_key("").is_none());
}

#[test]
fn parse_named_aliases() {
    assert_eq!(parse_named("ESC"), Some(NamedKey::Escape));
    assert_eq!(parse_named("Return"), Some(NamedKey::Enter));
    assert_eq!(parse_named("PageDown"), Some(NamedKey::PageDown));
    assert_eq!(parse_named("left"), Some(NamedKey::ArrowLeft));
    assert_eq!(parse_named("F13"), None);
}

#[test]
fn ctrl_n_adds_a_chart() {
    assert!(matches!(key_command("Ctrl+n"), Ok(KeyCommand::AddChart)));
}

#[test]
fn ctrl_capital_n_is_a_key_press() {
    match key_command("Ctrl+N") {
        Ok(KeyCommand::KeyPressed(Key::Character(c))) => assert_eq!(c, "N"),
        other => panic!("unexpected {other:?}"),
    }
}

#[test]
fn plain_key_is_pressed() {
    assert!(matches!(
        key_command("Escape"),
        Ok(KeyCommand::KeyPressed(Key::Named(NamedKey::Escape)))
    ));
}

#[test]
fn empty_key_is_unknown_combo() {
    match key_command("Ctrl+") {
        Err(InputError::UnknownCombo(c)) => assert_eq!(c, "Ctrl+"),
        other => panic!("unexpected {other:?}"),
    }
}
