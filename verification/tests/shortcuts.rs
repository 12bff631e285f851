use chatstream::shortcuts::{parse_shortcut, KeyCode, ShortcutMods};

#[test]
fn ctrl_space_parses() {
    let (mods, code) = parse_shortcut("Ctrl+Space").unwrap();
    assert_eq!(
        mods,
        Some(ShortcutMods { control: true, alt: false, shift: false, meta: false })
    );
    assert_eq!(code, KeyCode::Space);
}

#[test]
fn cmd_k_parses_case_insensitively() {
    let (mods, code) = parse_shortcut("cmd+k").unwrap();
    assert_eq!(
        mods,
        Some(ShortcutMods { control: false, alt: false, shift: false, meta: true })
    );
    assert_eq!(code, KeyCode::KeyK);
}

#[test]
fn parts_are_trimmed_and_modifiers_accumulate() {
    let (mods, code) = parse_shortcut("  ctrl + Shift + F5 ").unwrap();
    assert_eq!(
        mods,
        Some(ShortcutMods { control: true, alt: false, shift: true, meta: false })
    );
    assert_eq!(code, KeyCode::F5);
}

#[test]
fn bare_key_has_no_modifiers() {
    let (mods, code) = parse_shortcut("escape").unwrap();
    assert_eq!(mods, None);
    assert_eq!(code, KeyCode::Escape);
}

#[test]
fn key_aliases_resolve() {
    assert_eq!(parse_shortcut("Return").unwrap().1, KeyCode::Enter);
    assert_eq!(parse_shortcut("Del").unwrap().1, KeyCode::Delete);
    assert_eq!(parse_shortcut("Alt+Up").unwrap().1, KeyCode::ArrowUp);
    assert_eq!(parse_shortcut("PAGE_DOWN").unwrap().1, KeyCode::PageDown);
    assert_eq!(parse_shortcut("9").unwrap().1, KeyCode::Digit9);
}

#[test]
fn missing_key_is_rejected() {
    assert_eq!(parse_shortcut("Ctrl+").unwrap_err(), "Shortcut must include a key");
    assert_eq!(parse_shortcut("Ctrl+Shift").unwrap_err(), "Shortcut must include a key");
}

#[test]
fn unsupported_key_is_rejected_with_its_name() {
    assert_eq!(parse_shortcut("Ctrl+Foo").unwrap_err(), "Unsupported key: Foo");
}

#[test]
fn last_non_modifier_part_wins() {
    let (_, code) = parse_shortcut("A+B").unwrap();
    assert_eq!(code, KeyCode::KeyB);
}
