use vellum_fe_tabbed::login_wizard::{PickerResult, Profile, ProfilePicker};
use vellum_fe_tabbed::wizard_keys::{handle_wizard_key, wizard_outcome, WizardEffect, WizardKey, WizardOutcome};

fn profile(name: &str, lich: bool) -> Profile {
    Profile {
        name: name.to_string(),
        account: "acct".to_string(),
        character: "Brashka".to_string(),
        game_code: "GSX".to_string(),
        use_lich: lich,
        lich_host: if lich { Some("10.1.1.1".to_string()) } else { None },
        lich_port: if lich { Some(8111) } else { None },
    }
}

fn type_str(p: &mut ProfilePicker, s: &str) {
    for c in s.chars() {
        p.type_char(c);
    }
}

fn key(p: &mut ProfilePicker, k: WizardKey) -> WizardEffect {
    handle_wizard_key(p, k, false, false)
}

#[test]
fn new_picker_lists_profiles() {
    let p = ProfilePicker::new(vec![profile("A", false)]);
    assert!(p.is_list_mode());
    assert!(p.result.is_none());
    assert!(!p.needs_fetch());
    assert_eq!(p.profiles().len(), 1);
    assert!(p.get_fetch_params().is_none());
}

#[test]
fn new_profile_is_saved_from_the_form() {
    let mut p = ProfilePicker::new(vec![]);
    p.new_profile();
    assert!(!p.is_list_mode());
    assert_eq!(p.edit_title(), "New Profile");
    type_str(&mut p, "Main");
    p.tab();
    type_str(&mut p, "acct");
    p.tab();
    type_str(&mut p, "pw");
    p.tab();
    p.cycle_game(true);
    p.tab();
    type_str(&mut p, "Brashka");
    p.tab();
    assert!(!p.confirm());
    assert!(p.is_list_mode());
    let saved = &p.profiles()[0];
    assert_eq!(saved.name, "Main");
    assert_eq!(saved.account, "acct");
    assert_eq!(saved.character, "Brashka");
    assert_eq!(saved.game_code, "GSX");
    assert!(!saved.use_lich);
    assert_eq!(saved.lich_host, None);
    assert_eq!(saved.lich_port, None);
}

#[test]
fn incomplete_form_shows_error_and_stays() {
    let mut p = ProfilePicker::new(vec![]);
    p.new_profile();
    for _ in 0..5 {
        p.tab();
    }
    assert!(!p.confirm());
    assert!(!p.is_list_mode());
    assert_eq!(p.error(), Some("Name, account, and character are required."));
    assert!(p.profiles().is_empty());
    p.back();
    assert!(p.is_list_mode());
    assert_eq!(p.error(), None);
}

#[test]
fn enter_on_empty_character_asks_for_fetch() {
    let mut p = ProfilePicker::new(vec![]);
    p.new_profile();
    p.tab();
    type_str(&mut p, "acct");
    p.tab();
    type_str(&mut p, "secret");
    p.tab();
    p.tab();
    assert!(p.confirm());
    assert!(p.needs_fetch());
    assert_eq!(
        p.get_fetch_params(),
        Some(("acct".to_string(), "secret".to_string(), "GS3".to_string()))
    );
    p.set_characters(vec!["Brashka".to_string(), "Mule".to_string()]);
    assert!(!p.needs_fetch());
    assert_eq!(p.characters, vec!["Brashka".to_string(), "Mule".to_string()]);
    p.set_error("Login failed".to_string());
    assert_eq!(p.error(), Some("Login failed"));
}

#[test]
fn edit_then_save_keeps_profile() {
    let mut p = ProfilePicker::new(vec![profile("A", true), profile("B", false)]);
    p.move_down();
    p.move_up();
    p.edit_selected();
    assert_eq!(p.edit_title(), "Edit Profile");
    for _ in 0..7 {
        p.tab();
    }
    assert!(!p.confirm());
    assert!(p.is_list_mode());
    let a = &p.profiles()[0];
    assert_eq!(a.name, "A");
    assert_eq!(a.game_code, "GSX");
    assert!(a.use_lich);
    assert_eq!(a.lich_host.as_deref(), Some("10.1.1.1"));
    assert_eq!(a.lich_port, Some(8111));
    assert_eq!(p.profiles().len(), 2);
}

#[test]
fn lich_port_takes_digits_only() {
    let mut p = ProfilePicker::new(vec![profile("A", true)]);
    p.edit_selected();
    for _ in 0..7 {
        p.tab();
    }
    p.backspace();
    type_str(&mut p, "x9");
    let rows = p.edit_rows();
    assert_eq!(rows.len(), 8);
    assert_eq!(rows[7].value, "8119");
    assert!(rows[7].active);
    assert_eq!(rows[2].value, "");
    assert_eq!(rows[3].value, "< GSX >  GemStone IV (Platinum)");
}

#[test]
fn use_lich_toggles_when_reached() {
    let mut p = ProfilePicker::new(vec![]);
    p.new_profile();
    for _ in 0..4 {
        p.tab();
    }
    p.move_down();
    assert_eq!(p.edit_rows().len(), 8);
    p.move_up();
    p.move_down();
    assert_eq!(p.edit_rows().len(), 6);
}

#[test]
fn delete_keeps_selection_in_range() {
    let mut p = ProfilePicker::new(vec![profile("A", false), profile("B", false)]);
    p.move_down();
    p.delete_selected();
    assert_eq!(p.profiles().len(), 1);
    p.confirm();
    match &p.result {
        Some(PickerResult::Connect(x)) => assert_eq!(x.name, "A"),
        _ => panic!("expected a connect result"),
    }
    p.delete_selected();
    p.delete_selected();
    assert!(p.profiles().is_empty());
}

#[test]
fn keys_in_list_manage_profiles() {
    let mut p = ProfilePicker::new(vec![profile("A", false), profile("B", false)]);
    match key(&mut p, WizardKey::Char('d')) {
        WizardEffect::SaveProfiles(store) => {
            assert_eq!(store.profiles.len(), 1);
            assert_eq!(store.profiles[0].name, "B");
        }
        _ => panic!("expected a save"),
    }
    assert!(matches!(key(&mut p, WizardKey::Char('N')), WizardEffect::Nothing));
    assert!(!p.is_list_mode());
    assert!(matches!(key(&mut p, WizardKey::Char('n')), WizardEffect::Nothing));
    assert!(matches!(key(&mut p, WizardKey::Char('d')), WizardEffect::Nothing));
    assert_eq!(p.edit_rows()[0].value, "nd");
    assert!(matches!(handle_wizard_key(&mut p, WizardKey::Char('x'), true, false), WizardEffect::Nothing));
    assert_eq!(p.edit_rows()[0].value, "nd");
    key(&mut p, WizardKey::Esc);
    key(&mut p, WizardKey::Esc);
    assert!(matches!(p.result, Some(PickerResult::Quit)));
    assert!(matches!(wizard_outcome(&p), WizardOutcome::Quit));
}

#[test]
fn enter_key_asks_for_a_fetch() {
    let mut p = ProfilePicker::new(vec![]);
    key(&mut p, WizardKey::Char('n'));
    key(&mut p, WizardKey::Tab);
    key(&mut p, WizardKey::Char('a'));
    key(&mut p, WizardKey::Down);
    key(&mut p, WizardKey::Char('p'));
    key(&mut p, WizardKey::Down);
    key(&mut p, WizardKey::Right);
    key(&mut p, WizardKey::Right);
    key(&mut p, WizardKey::Left);
    key(&mut p, WizardKey::Down);
    match key(&mut p, WizardKey::Enter) {
        WizardEffect::FetchCharacters { account, password, game_code } => {
            assert_eq!((account.as_str(), password.as_str(), game_code.as_str()), ("a", "p", "GSX"));
        }
        _ => panic!("expected a fetch"),
    }
}

#[test]
fn outcome_of_a_lich_connection() {
    let mut p = ProfilePicker::new(vec![profile("A", true)]);
    assert!(matches!(wizard_outcome(&p), WizardOutcome::Stay));
    key(&mut p, WizardKey::Enter);
    match wizard_outcome(&p) {
        WizardOutcome::Connect { store, credential, command } => {
            assert_eq!(command, "//setup:connect:lich:10.1.1.1:8111");
            assert_eq!(store.profiles.len(), 1);
            assert!(credential.is_none());
        }
        _ => panic!("expected a connection"),
    }
}

#[test]
fn outcome_of_a_direct_connection() {
    let mut p = ProfilePicker::new(vec![profile("A", false)]);
    p.confirm();
    match wizard_outcome(&p) {
        WizardOutcome::Connect { command, .. } => {
            assert_eq!(command, "//setup:connect:direct:acct:GSX:Brashka");
        }
        _ => panic!("expected a connection"),
    }
}

#[test]
fn game_cycle_forward_then_back_restores_game() {
    let mut p = ProfilePicker::new(vec![]);
    p.new_profile();
    p.tab();
    p.tab();
    p.tab();
    let before = p.edit_rows()[3].value.clone();
    assert_eq!(before, "< GS3 >  GemStone IV (Prime)");
    p.cycle_game(true);
    assert_ne!(p.edit_rows()[3].value, before);
    p.cycle_game(false);
    assert_eq!(p.edit_rows()[3].value, before);
    p.cycle_game(false);
    p.cycle_game(true);
    assert_eq!(p.edit_rows()[3].value, before);
}

#[test]
fn list_down_then_up_returns_to_start() {
    let mut p = ProfilePicker::new(vec![profile("A", false), profile("B", false), profile("C", true)]);
    assert_eq!(p.selected(), 0);
    p.move_down();
    assert_eq!(p.selected(), 1);
    p.move_up();
    assert_eq!(p.selected(), 0);
    p.move_down();
    p.move_down();
    p.move_down();
    assert_eq!(p.selected(), 2);
}
