use vellum_fe_tabbed::session_keys::{is_session_cmd, SessionCmd};

#[test]
fn parses_keywords() {
    assert_eq!(SessionCmd::parse("//session:next"), Some(SessionCmd::Next));
    assert_eq!(SessionCmd::parse("//session:prev"), Some(SessionCmd::Prev));
    assert_eq!(SessionCmd::parse("//session:new"), Some(SessionCmd::New));
    assert_eq!(SessionCmd::parse("//session:close"), Some(SessionCmd::Close));
    assert_eq!(SessionCmd::parse("//session:compact"), Some(SessionCmd::ToggleCompact));
    assert_eq!(SessionCmd::parse("//session:broadcast"), Some(SessionCmd::Broadcast));
    assert_eq!(SessionCmd::parse("//session:sound"), Some(SessionCmd::ToggleSound));
    assert_eq!(SessionCmd::parse("//session:tts"), Some(SessionCmd::ToggleTts));
}

#[test]
fn parses_switch_and_rejects_garbage() {
    assert_eq!(SessionCmd::parse("//session:switch:3"), Some(SessionCmd::SwitchToIndex(3)));
    assert_eq!(SessionCmd::parse("//session:switch:x"), None);
    assert_eq!(SessionCmd::parse("//session:switch:"), None);
    assert_eq!(SessionCmd::parse("//session:Next"), None);
    assert_eq!(SessionCmd::parse("look"), None);
    assert_eq!(SessionCmd::parse("//session:"), None);
}

#[test]
fn constructors_round_trip() {
    for i in [0usize, 1, 9, 12345] {
        let s = SessionCmd::switch(i);
        assert_eq!(s, format!("//session:switch:{}", i));
        assert!(is_session_cmd(&s));
        assert_eq!(SessionCmd::parse(&s), Some(SessionCmd::SwitchToIndex(i)));
    }
    assert_eq!(SessionCmd::parse(SessionCmd::next()), Some(SessionCmd::Next));
    assert_eq!(SessionCmd::parse(SessionCmd::prev()), Some(SessionCmd::Prev));
    assert_eq!(SessionCmd::parse(SessionCmd::new_session()), Some(SessionCmd::New));
    assert_eq!(SessionCmd::parse(SessionCmd::close()), Some(SessionCmd::Close));
    assert_eq!(SessionCmd::parse(SessionCmd::compact()), Some(SessionCmd::ToggleCompact));
    assert_eq!(SessionCmd::parse(SessionCmd::sound()), Some(SessionCmd::ToggleSound));
    assert_eq!(SessionCmd::parse(SessionCmd::tts()), Some(SessionCmd::ToggleTts));
}

#[test]
fn recognises_session_commands() {
    assert!(is_session_cmd("//session:next"));
    assert!(is_session_cmd("//session:whatever"));
    assert!(!is_session_cmd("/session:next"));
    assert!(!is_session_cmd("say hi"));
}
