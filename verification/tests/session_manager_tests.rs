use vellum_fe_tabbed::session::{ConnectionMode, Session, SessionStatus};
use vellum_fe_tabbed::session_manager::SessionManager;

fn lich() -> ConnectionMode {
    ConnectionMode::LichProxy { host: "localhost".to_string(), port: 8000 }
}

fn manager_with(n: usize) -> SessionManager {
    let mut m = SessionManager::new();
    for i in 0..n {
        m.add(format!("s{}", i), lich());
    }
    m
}

fn active_id(m: &SessionManager) -> Option<usize> {
    m.active().map(|s| s.id)
}

#[test]
fn new_session_defaults() {
    let mut s = Session::new(4, "Buck".to_string(), lich());
    assert_eq!(s.id, 4);
    assert_eq!(s.status, SessionStatus::Disconnected);
    assert_eq!(s.unread_count, 0);
    assert!(s.sound_enabled && s.tts_enabled);
    assert!(!s.is_connected());
    s.status = SessionStatus::Connected;
    assert!(s.is_connected());
    s.increment_unread();
    s.increment_unread();
    assert_eq!(s.unread_count, 2);
    s.unread_count = usize::MAX;
    s.increment_unread();
    assert_eq!(s.unread_count, usize::MAX);
    s.sync_unread(7);
    assert_eq!(s.unread_count, 7);
    s.clear_unread();
    assert_eq!(s.unread_count, 0);
}

#[test]
fn first_added_session_gets_focus() {
    let mut m = SessionManager::new();
    assert!(m.is_empty());
    assert_eq!(m.active_session_id, usize::MAX);
    let a = m.add("a".to_string(), lich());
    let b = m.add("b".to_string(), lich());
    assert_eq!((a, b), (0, 1));
    assert_eq!(active_id(&m), Some(0));
    assert_eq!(m.active_session_id, 0);
    assert_eq!(m.count(), 2);
    assert!(m.can_add());
}

#[test]
fn next_and_prev_wrap_around() {
    let mut m = manager_with(3);
    m.next();
    assert_eq!(active_id(&m), Some(1));
    m.next();
    m.next();
    assert_eq!(active_id(&m), Some(0));
    m.prev();
    assert_eq!(active_id(&m), Some(2));
    assert_eq!(m.active_session_id, 2);
    m.next();
    m.prev();
    assert_eq!(active_id(&m), Some(2));
}

#[test]
fn next_does_nothing_with_one_session() {
    let mut m = manager_with(1);
    m.next();
    m.prev();
    assert_eq!(active_id(&m), Some(0));
}

#[test]
fn set_active_clears_unread_and_ignores_unknown_ids() {
    let mut m = manager_with(3);
    m.get_mut(2).unwrap().unread_count = 5;
    m.set_active(2);
    assert_eq!(active_id(&m), Some(2));
    assert_eq!(m.get(2).unwrap().unread_count, 0);
    m.set_active(99);
    assert_eq!(active_id(&m), Some(2));
    assert_eq!(m.active_session_id, 2);
}

#[test]
fn set_active_by_index_is_one_based() {
    let mut m = manager_with(3);
    m.set_active_by_index(3);
    assert_eq!(active_id(&m), Some(2));
    m.set_active_by_index(0);
    assert_eq!(active_id(&m), Some(0));
    m.set_active_by_index(4);
    assert_eq!(active_id(&m), Some(0));
}

#[test]
fn removing_the_active_session_focuses_the_first() {
    let mut m = manager_with(3);
    m.set_active(1);
    m.remove(1);
    assert_eq!(active_id(&m), Some(0));
    assert!(m.get(1).is_none());
    assert_eq!(m.active_session_id, 0);
    m.remove(0);
    assert_eq!(active_id(&m), Some(2));
    assert_eq!(m.active_session_id, 2);
    m.remove(2);
    assert_eq!(active_id(&m), None);
    assert_eq!(m.active_session_id, usize::MAX);
    assert!(m.is_empty());
    let id = m.add("again".to_string(), lich());
    assert_eq!(id, 3);
    assert_eq!(active_id(&m), Some(3));
}

#[test]
fn removing_another_session_keeps_focus() {
    let mut m = manager_with(3);
    m.set_active(2);
    m.remove(0);
    assert_eq!(active_id(&m), Some(2));
    assert_eq!(m.all().iter().map(|s| s.id).collect::<Vec<_>>(), vec![1, 2]);
}

#[test]
fn sync_unread_skips_the_active_session() {
    let mut m = manager_with(3);
    m.sync_unread_all(&vec![4, 5, 6]);
    let counts: Vec<usize> = m.all().iter().map(|s| s.unread_count).collect();
    assert_eq!(counts, vec![0, 5, 6]);
}

#[test]
fn broadcast_targets() {
    let mut m = manager_with(3);
    m.set_active(1);
    assert_eq!(m.broadcast(), vec![0, 1, 2]);
    assert_eq!(m.broadcast_others(), vec![0, 2]);
    let empty = SessionManager::default();
    assert!(empty.broadcast().is_empty());
}

#[test]
fn mutable_access() {
    let mut m = manager_with(2);
    m.active_mut().unwrap().label = "renamed".to_string();
    assert_eq!(m.get(0).unwrap().label, "renamed");
    for s in m.all_mut() {
        s.sound_enabled = false;
    }
    assert!(m.all().iter().all(|s| !s.sound_enabled));
    assert!(m.get_mut(7).is_none());
}
