use vellum_fe_tabbed::display::{form_lines, form_mode_label, profile_row, repeat_string, session_row};
use vellum_fe_tabbed::layout::{centered_rect, profile_picker_inner, profile_picker_popup, Area};
use vellum_fe_tabbed::login_wizard::Profile;
use vellum_fe_tabbed::search_line::{handle_search_key, SearchEffect, SearchKey, SearchLine};
use vellum_fe_tabbed::session_picker::AddForm;
use vellum_fe_tabbed::sessions_config::{SessionEntry, SessionModeConfig};
use vellum_fe_tabbed::tab_bar::{status_color, tab_label, Cell, CellKind, TabBar, TabColor, TabEntry};

#[test]
fn session_rows() {
    let e = SessionEntry {
        label: "Buckwheet".to_string(),
        mode: SessionModeConfig::Lich,
        host: Some("localhost".to_string()),
        port: Some(8000),
        account: None,
        character: None,
        game_code: None,
        auto_connect: false,
    };
    assert_eq!(session_row(&e, true), format!("▶ {:<20} {:<8} {}", "Buckwheet", "Lich", "localhost:8000"));
    let d = SessionEntry { mode: SessionModeConfig::Direct, port: None, ..e };
    assert_eq!(session_row(&d, false), format!("  {:<20} {:<8} {}", "Buckwheet", "Direct", "—"));
}

#[test]
fn profile_rows() {
    let p = Profile {
        name: "Brashka - Prime".to_string(),
        account: "acct".to_string(),
        character: "Brashka".to_string(),
        game_code: "GS3".to_string(),
        use_lich: true,
        lich_host: None,
        lich_port: None,
    };
    assert_eq!(profile_row(&p, false), format!("  {:<24} {:<14} {:<5} {}", "Brashka - Prime", "acct", "GS3", "Lich :8000"));
    let q = Profile { use_lich: false, name: "x".repeat(30), ..p };
    assert_eq!(profile_row(&q, true), format!("▶ {:<24} {:<14} {:<5} {}", "x".repeat(30), "acct", "GS3", "Direct"));
    assert_eq!(repeat_string('●', 3), "●●●");
}

#[test]
fn form_text() {
    let f = AddForm::new();
    let lines = form_lines(&f);
    assert_eq!(lines, vec!["  Label: [█]", "  Host : [localhost]", "  Port : [8000]"]);
    assert_eq!(form_mode_label(true), "[Lich Proxy]  Direct     ");
    assert_eq!(form_mode_label(false), " Lich Proxy  [Direct]    ");
}

#[test]
fn rectangles() {
    let area = Area { x: 0, y: 0, width: 100, height: 40 };
    assert_eq!(centered_rect(60, 20, area), Area { x: 20, y: 10, width: 60, height: 20 });
    let small = Area { x: 5, y: 5, width: 30, height: 10 };
    assert_eq!(centered_rect(60, 20, small), Area { x: 5, y: 5, width: 30, height: 10 });
    let popup = profile_picker_popup(area, true);
    assert_eq!(popup, Area { x: 18, y: 11, width: 64, height: 18 });
    assert_eq!(profile_picker_inner(popup), Area { x: 20, y: 12, width: 60, height: 16 });
    let narrow = profile_picker_popup(Area { x: 0, y: 0, width: 3, height: 5 }, false);
    assert_eq!(narrow, Area { x: 1, y: 0, width: 0, height: 14 });
}

fn tab<'a>(label: &'a str, status: &'a str, unread: usize, active: bool) -> TabEntry<'a> {
    TabEntry { label, is_active: active, status, unread, sound_enabled: true, tts_enabled: true }
}

#[test]
fn tab_labels() {
    assert_eq!(tab_label(&tab("Buckwheet", "●", 0, true), false), " ● Buckwheet ");
    assert_eq!(tab_label(&tab("Altchar", "…", 3, false), false), " … Altchar 3 ");
    let mut muted = tab("Mule", "!", 0, false);
    muted.sound_enabled = false;
    muted.tts_enabled = false;
    assert_eq!(tab_label(&muted, false), " ! Mule 🔇 🔕 ");
    assert_eq!(tab_label(&muted, true), " !Mu🔇🔕 ");
    assert_eq!(tab_label(&tab("M", "○", 2, false), true), " ○M ● ");
    assert_eq!(status_color("●"), TabColor::Green);
    assert_eq!(status_color("…"), TabColor::Yellow);
    assert_eq!(status_color("↻"), TabColor::Cyan);
    assert_eq!(status_color("!"), TabColor::Red);
    assert_eq!(status_color("○"), TabColor::DarkGray);
}

#[test]
fn tab_bar_cells() {
    let bar = TabBar::new(vec![tab("A", "●", 0, true), tab("B", "!", 0, false)]).compact(false);
    assert!(!bar.compact);
    let cells = bar.cells(Area { x: 2, y: 0, width: 12, height: 1 });
    let text: String = cells.iter().map(|c| c.ch).collect();
    assert_eq!(text, " ● A │ ! B │");
    assert_eq!(cells[0].x, 2);
    assert_eq!(cells[1], Cell { x: 3, ch: '●', kind: CellKind::Tab { active: true, color: Some(TabColor::Green) } });
    assert_eq!(cells[5].kind, CellKind::Separator);
    let wide = bar.cells(Area { x: 0, y: 0, width: 14, height: 1 });
    assert_eq!(wide.len(), 14);
    assert_eq!(wide[13].kind, CellKind::Blank);
    let cut = bar.cells(Area { x: 0, y: 0, width: 3, height: 1 });
    assert_eq!(cut.iter().map(|c| c.ch).collect::<String>(), " ● ");
    assert!(bar.cells(Area { x: 0, y: 0, width: 10, height: 0 }).is_empty());
}

#[test]
fn search_line_editing() {
    let mut l = SearchLine { input: String::new(), cursor: 0 };
    for c in "helo".chars() {
        assert!(matches!(handle_search_key(&mut l, SearchKey::Char(c), false), SearchEffect::Redraw));
    }
    handle_search_key(&mut l, SearchKey::Left, false);
    handle_search_key(&mut l, SearchKey::Char('l'), false);
    assert_eq!(l.input, "hello");
    assert_eq!(l.cursor, 4);
    handle_search_key(&mut l, SearchKey::End, false);
    assert_eq!(l.cursor, 5);
    assert!(matches!(handle_search_key(&mut l, SearchKey::Right, false), SearchEffect::Nothing));
    handle_search_key(&mut l, SearchKey::Backspace, false);
    assert_eq!(l.input, "hell");
    handle_search_key(&mut l, SearchKey::Home, false);
    assert!(matches!(handle_search_key(&mut l, SearchKey::Backspace, false), SearchEffect::Nothing));
    assert!(matches!(handle_search_key(&mut l, SearchKey::PageUp, true), SearchEffect::PrevMatch));
    assert!(matches!(handle_search_key(&mut l, SearchKey::PageDown, false), SearchEffect::Nothing));
    match handle_search_key(&mut l, SearchKey::Enter, false) {
        SearchEffect::Run(p) => assert_eq!(p, "hell"),
        _ => panic!("expected a search"),
    }
    assert!(matches!(handle_search_key(&mut l, SearchKey::Esc, false), SearchEffect::Exit));
    assert!(l.input.is_empty() && l.cursor == 0);
    assert!(matches!(handle_search_key(&mut l, SearchKey::Enter, false), SearchEffect::Nothing));
}
