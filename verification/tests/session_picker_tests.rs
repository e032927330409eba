use vellum_fe_tabbed::session_picker::{AddForm, FormField, PickerAction, PickerFocus, SessionPicker};
use vellum_fe_tabbed::sessions_config::{SessionEntry, SessionModeConfig, SessionsConfig};

fn config(labels: &[&str]) -> SessionsConfig {
    SessionsConfig {
        sessions: labels
            .iter()
            .map(|l| SessionEntry {
                label: l.to_string(),
                mode: SessionModeConfig::Lich,
                host: Some("localhost".to_string()),
                port: Some(8000),
                account: None,
                character: None,
                game_code: None,
                auto_connect: false,
            })
            .collect(),
    }
}

#[test]
fn add_form_defaults_and_field_cycle() {
    let mut f = AddForm::new();
    assert_eq!(f.host, "localhost");
    assert_eq!(f.port, "8000");
    assert_eq!(f.focused_field(), &Some(FormField::Label));
    f.next_field();
    assert_eq!(f.focused_field, Some(FormField::Host));
    f.next_field();
    f.next_field();
    assert_eq!(f.focused_field, Some(FormField::Label));
    f.prev_field();
    assert_eq!(f.focused_field, Some(FormField::Port));
    f.focused_field = None;
    f.prev_field();
    assert_eq!(f.focused_field, Some(FormField::Host));
    let d = AddForm::default();
    assert!(d.label.is_empty() && !d.lich_mode && d.focused_field.is_none());
}

#[test]
fn add_form_typing() {
    let mut f = AddForm::new();
    for c in "My Char".chars() {
        f.type_char(c);
    }
    f.backspace();
    assert_eq!(f.label, "My Cha");
    f.focused_field = Some(FormField::Port);
    f.type_char('a');
    f.type_char('1');
    assert_eq!(f.port, "80001");
    f.backspace();
    f.backspace();
    assert_eq!(f.port, "800");
}

#[test]
fn to_entry_trims_and_validates() {
    let mut f = AddForm::new();
    f.label = "  Alt  ".to_string();
    f.host = " example.org ".to_string();
    f.port = " 8001 ".to_string();
    let e = f.to_entry().unwrap();
    assert_eq!(e.label, "Alt");
    assert_eq!(e.host.as_deref(), Some("example.org"));
    assert_eq!(e.port, Some(8001));
    assert_eq!(e.mode, SessionModeConfig::Lich);
    assert!(e.account.is_none() && !e.auto_connect);
    f.port = "70000".to_string();
    assert!(f.to_entry().is_none());
    f.port = "80".to_string();
    f.label = "   ".to_string();
    assert!(f.to_entry().is_none());
}

#[test]
fn list_navigation_wraps_over_add_row() {
    let mut p = SessionPicker::new(&config(&["a", "b"]));
    assert!(p.is_active());
    p.move_up();
    assert_eq!(p.selected, 2);
    p.move_down();
    assert_eq!(p.selected, 0);
    p.move_down();
    p.move_up();
    assert_eq!(p.selected, 0);
}

#[test]
fn confirm_connects_or_opens_form() {
    let mut p = SessionPicker::new(&config(&["a", "b"]));
    p.move_down();
    p.confirm();
    assert!(matches!(p.action, Some(PickerAction::Connect(1))));
    assert!(!p.is_active());

    let mut p = SessionPicker::new(&config(&["a"]));
    p.move_down();
    p.confirm();
    assert_eq!(p.focus, PickerFocus::Form);
    for c in "New".chars() {
        p.type_char(c);
    }
    p.tab_field();
    p.tab_field();
    p.backspace();
    p.confirm();
    match &p.action {
        Some(PickerAction::AddSession(e)) => {
            assert_eq!(e.label, "New");
            assert_eq!(e.port, Some(800));
        }
        _ => panic!("expected an added session"),
    }
}

#[test]
fn direct_mode_opens_wizard() {
    let mut p = SessionPicker::new(&config(&[]));
    p.confirm();
    p.toggle_mode();
    p.confirm();
    assert!(matches!(p.action, Some(PickerAction::OpenWizard)));
}

#[test]
fn cancel_and_remove() {
    let mut p = SessionPicker::new(&config(&["a"]));
    p.remove_selected();
    assert!(matches!(p.action, Some(PickerAction::Remove(0))));
    let mut p = SessionPicker::new(&config(&["a"]));
    p.move_down();
    p.remove_selected();
    assert!(p.action.is_none());
    p.confirm();
    p.cancel_form();
    assert_eq!(p.focus, PickerFocus::List);
    assert!(p.form.is_none());
    p.cancel_form();
    assert!(p.action.is_none());
    let mut empty = SessionPicker::new(&config(&[]));
    empty.cancel_form();
    assert!(matches!(empty.action, Some(PickerAction::Quit)));
}
