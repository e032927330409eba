use vellum_fe_tabbed::connection::{default_game_code, Profile, ProfileStore};
use vellum_fe_tabbed::sessions_config::{SessionEntry, SessionModeConfig, SessionsConfig};

fn profile(name: &str, character: &str) -> Profile {
    Profile {
        name: name.to_string(),
        account: "acct".to_string(),
        character: character.to_string(),
        game_code: "GS3".to_string(),
        use_lich: false,
        lich_host: None,
        lich_port: None,
    }
}

fn names(store: &ProfileStore) -> Vec<(String, String)> {
    store.profiles.iter().map(|p| (p.name.clone(), p.character.clone())).collect()
}

#[test]
fn add_or_update_appends_then_replaces_first_match() {
    let mut store = ProfileStore::default();
    store.add_or_update(profile("A", "one"));
    store.add_or_update(profile("B", "two"));
    store.add_or_update(profile("A", "three"));
    assert_eq!(
        names(&store),
        vec![("A".to_string(), "three".to_string()), ("B".to_string(), "two".to_string())]
    );
}

#[test]
fn add_or_update_twice_is_once() {
    let mut once = ProfileStore { profiles: vec![profile("X", "x"), profile("Y", "y")] };
    once.add_or_update(profile("Y", "new"));
    let mut twice = once.clone();
    twice.add_or_update(profile("Y", "new"));
    assert_eq!(names(&once), names(&twice));
}

#[test]
fn remove_drops_every_profile_of_that_name() {
    let mut store = ProfileStore {
        profiles: vec![profile("A", "1"), profile("B", "2"), profile("A", "3"), profile("C", "4")],
    };
    store.remove("A");
    assert_eq!(
        names(&store),
        vec![("B".to_string(), "2".to_string()), ("C".to_string(), "4".to_string())]
    );
    store.remove("Z");
    assert_eq!(store.profiles.len(), 2);
}

#[test]
fn remove_after_save_is_remove() {
    let mut a = ProfileStore { profiles: vec![profile("A", "1"), profile("B", "2")] };
    let mut b = a.clone();
    a.add_or_update(profile("B", "9"));
    a.remove("B");
    b.remove("B");
    assert_eq!(names(&a), names(&b));
}

#[test]
fn lich_defaults() {
    let mut p = profile("A", "1");
    assert_eq!(p.lich_host(), "127.0.0.1");
    assert_eq!(p.lich_port(), 8000);
    p.lich_host = Some("10.0.0.2".to_string());
    p.lich_port = Some(8123);
    assert_eq!(p.lich_host(), "10.0.0.2");
    assert_eq!(p.lich_port(), 8123);
    assert_eq!(default_game_code(), "GS3");
}

fn entry(label: &str) -> SessionEntry {
    SessionEntry {
        label: label.to_string(),
        mode: SessionModeConfig::Lich,
        host: Some("localhost".to_string()),
        port: Some(8000),
        account: None,
        character: None,
        game_code: None,
        auto_connect: false,
    }
}

#[test]
fn sessions_config_add_and_remove() {
    let mut cfg = SessionsConfig::default();
    cfg.add(entry("a"));
    cfg.add(entry("b"));
    cfg.add(entry("a"));
    assert_eq!(cfg.sessions.len(), 3);
    cfg.remove("a");
    assert_eq!(cfg.sessions.len(), 1);
    assert_eq!(cfg.sessions[0].label, "b");
    cfg.remove("b");
    assert!(cfg.sessions.is_empty());
}
