use vita_presence_rs::{presence_action, update_available, PresenceAction};

#[test]
fn game_is_shown_with_cover() {
    match presence_action(Some(("Persona 4".to_string(), "https://x/y.png".to_string())), false) {
        PresenceAction::Show { state, large_image } => {
            assert_eq!(state, "Persona 4");
            assert_eq!(large_image, Some("https://x/y.png".to_string()));
        },
        PresenceAction::Clear => panic!("game should be shown"),
    }
}

#[test]
fn empty_cover_shows_no_image() {
    match presence_action(Some(("Persona 4".to_string(), String::new())), false) {
        PresenceAction::Show { large_image, .. } => assert_eq!(large_image, None),
        PresenceAction::Clear => panic!("game should be shown"),
    }
}

#[test]
fn home_screen_hidden_unless_asked() {
    assert!(matches!(
        presence_action(Some(("Live Area".to_string(), "u".to_string())), false),
        PresenceAction::Clear
    ));
    assert!(matches!(
        presence_action(Some(("Live Area".to_string(), "u".to_string())), true),
        PresenceAction::Show { .. }
    ));
    assert!(matches!(presence_action(None, true), PresenceAction::Clear));
}

#[test]
fn version_check() {
    assert!(update_available("1.2.0", "1.1.0"));
    assert!(!update_available("1.1.0", "1.1.0"));
}
