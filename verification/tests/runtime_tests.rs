use vellum_fe_tabbed::input::{
    classify_action, classify_submission, route_normal_key, route_outgoing, should_complete,
    to_ascii_lower, ActionKind, NormalKey, NormalRoute, Outgoing, SearchAction, Submission,
    TabAction,
};
use vellum_fe_tabbed::login_wizard::Profile;
use vellum_fe_tabbed::session_keys::SessionCmd;
use vellum_fe_tabbed::wizard_keys::connect_command;
use vellum_fe_tabbed::runtime::{
    handle_setup_command, route_command, startup_plan, CommandRoute, DirectLogin, SetupScreens,
    StartupConnection,
};

#[test]
fn routes_direct_connect_commands() {
    match route_command("//setup:connect:direct:acct:GS3:Bra:shka") {
        CommandRoute::ConnectDirect { account, game_code, character } => {
            assert_eq!((account.as_str(), game_code.as_str(), character.as_str()), ("acct", "GS3", "Bra:shka"));
        }
        other => panic!("unexpected {:?}", other),
    }
    assert!(matches!(route_command("//setup:connect:direct:acct"), CommandRoute::Malformed));
    assert!(matches!(route_command("//setup:dismiss"), CommandRoute::Setup));
    assert!(matches!(route_command("look"), CommandRoute::Game));
}

#[test]
fn routes_lich_connect_commands() {
    match route_command("//setup:connect:lich:127.0.0.1:8000") {
        CommandRoute::ConnectLich { host, port } => {
            assert_eq!(host, "127.0.0.1");
            assert_eq!(port, 8000);
        }
        other => panic!("unexpected {:?}", other),
    }
    match route_command("//setup:connect:lich:::1:8111") {
        CommandRoute::ConnectLich { host, port } => {
            assert_eq!(host, "::1");
            assert_eq!(port, 8111);
        }
        other => panic!("unexpected {:?}", other),
    }
    assert!(matches!(route_command("//setup:connect:lich:localhost"), CommandRoute::Malformed));
    assert!(matches!(route_command("//setup:connect:lich:h:70000"), CommandRoute::Malformed));
    assert!(matches!(route_command("//setup:connect:lich:h:"), CommandRoute::Malformed));
    assert!(matches!(route_command("//setup:connect:other"), CommandRoute::Setup));
}

#[test]
fn lich_profile_command_routes_back() {
    let p = Profile {
        name: "L".to_string(),
        account: "acct".to_string(),
        character: "C".to_string(),
        game_code: "GS3".to_string(),
        use_lich: true,
        lich_host: Some("10.0.0.2".to_string()),
        lich_port: Some(8111),
    };
    match route_command(&connect_command(&p)) {
        CommandRoute::ConnectLich { host, port } => {
            assert_eq!(host, "10.0.0.2");
            assert_eq!(port, 8111);
        }
        other => panic!("unexpected {:?}", other),
    }
}

#[test]
fn dismiss_hides_setup_screens() {
    let mut s = SetupScreens { show_setup_screen: true, show_password_prompt: true };
    handle_setup_command("//setup:other", &mut s);
    assert_eq!(s, SetupScreens { show_setup_screen: true, show_password_prompt: true });
    handle_setup_command("//setup:dismiss", &mut s);
    assert_eq!(s, SetupScreens { show_setup_screen: false, show_password_prompt: false });
}

#[test]
fn startup_prefers_direct_then_lich_then_picker() {
    let d = DirectLogin {
        account: "a".to_string(),
        password: String::new(),
        character: "c".to_string(),
        game_code: "GS3".to_string(),
    };
    let plan = startup_plan(Some(d), true, None, "h".to_string(), 1);
    assert!(matches!(plan.connection, Some(StartupConnection::Direct { .. })));
    assert!(plan.show_password_prompt && !plan.show_picker);
    let plan = startup_plan(None, false, Some("key".to_string()), "h".to_string(), 8000);
    match plan.connection {
        Some(StartupConnection::Lich { host, port, login_key }) => {
            assert_eq!((host.as_str(), port, login_key.as_deref()), ("h", 8000, Some("key")));
        }
        _ => panic!("expected lich"),
    }
    let plan = startup_plan(None, false, None, "h".to_string(), 8000);
    assert!(plan.connection.is_none() && plan.show_picker && !plan.show_password_prompt);
}

#[test]
fn submissions_and_outgoing() {
    assert!(matches!(classify_submission(".savelayout  mine "), Submission::SaveLayout(n) if n == "mine"));
    assert!(matches!(classify_submission(".savelayout"), Submission::SaveLayout(n) if n == "default"));
    assert!(matches!(classify_submission(".loadlayout x"), Submission::LoadLayout(n) if n == "x"));
    assert!(matches!(classify_submission(".loadlayoutx"), Submission::Command));
    assert!(matches!(classify_submission(".resize"), Submission::Resize));
    assert!(matches!(classify_submission("look"), Submission::Command));
    assert_eq!(route_outgoing("action:open"), Outgoing::MenuAction);
    assert_eq!(route_outgoing(""), Outgoing::Nothing);
    assert_eq!(route_outgoing("look"), Outgoing::Network);
}

#[test]
fn normal_mode_routing() {
    // key, ctrl, shift, wizard open, setup shown, quickbar focused, quickbar widget
    assert_eq!(route_normal_key(NormalKey::Char('C'), true, false, true, true, true, true), NormalRoute::Quit);
    assert_eq!(route_normal_key(NormalKey::Char('c'), true, false, false, false, false, false), NormalRoute::Quit);
    assert_eq!(route_normal_key(NormalKey::Char('x'), true, false, true, false, false, false), NormalRoute::Wizard);
    assert_eq!(route_normal_key(NormalKey::Enter, false, false, false, true, false, false), NormalRoute::DismissSetup);
    assert_eq!(
        route_normal_key(NormalKey::Left, false, false, false, false, true, true),
        NormalRoute::QuickbarMove(-1)
    );
    assert_eq!(
        route_normal_key(NormalKey::Right, false, false, false, false, true, true),
        NormalRoute::QuickbarMove(1)
    );
    assert_eq!(
        route_normal_key(NormalKey::Enter, false, false, false, false, true, true),
        NormalRoute::QuickbarActivate
    );
    assert_eq!(route_normal_key(NormalKey::Esc, false, false, false, false, true, false), NormalRoute::QuickbarEsc);
    assert_eq!(route_normal_key(NormalKey::Enter, false, false, false, false, false, false), NormalRoute::Submit);
    assert_eq!(
        route_normal_key(NormalKey::BackTab, false, false, false, false, true, true),
        NormalRoute::CycleWindowReverse
    );
    assert_eq!(
        route_normal_key(NormalKey::Char('Q'), false, false, false, false, false, false),
        NormalRoute::Keybind(NormalKey::Char('q'))
    );
}

#[test]
fn quickbar_without_widget_leaves_arrows_to_key_bindings() {
    assert_eq!(
        route_normal_key(NormalKey::Left, false, false, false, false, true, false),
        NormalRoute::Keybind(NormalKey::Left)
    );
    assert_eq!(
        route_normal_key(NormalKey::Right, false, false, false, false, true, false),
        NormalRoute::Keybind(NormalKey::Right)
    );
    assert_eq!(route_normal_key(NormalKey::Enter, false, false, false, false, true, false), NormalRoute::Submit);
}

#[test]
fn session_shortcuts() {
    let route = |k: NormalKey, shift: bool| route_normal_key(k, true, shift, false, false, false, false);
    assert_eq!(route(NormalKey::Char('C'), true), NormalRoute::Session(SessionCmd::ToggleCompact));
    assert_eq!(route(NormalKey::Char('c'), true), NormalRoute::Session(SessionCmd::ToggleCompact));
    assert_eq!(route(NormalKey::Char('3'), false), NormalRoute::Session(SessionCmd::SwitchToIndex(3)));
    assert_eq!(route(NormalKey::Char('9'), false), NormalRoute::Session(SessionCmd::SwitchToIndex(9)));
    assert_eq!(route(NormalKey::Char('0'), false), NormalRoute::Keybind(NormalKey::Char('0')));
    assert_eq!(route(NormalKey::Tab, false), NormalRoute::Session(SessionCmd::Next));
    assert_eq!(route(NormalKey::BackTab, true), NormalRoute::Session(SessionCmd::Prev));
    assert_eq!(route(NormalKey::Char('t'), false), NormalRoute::Session(SessionCmd::New));
    assert_eq!(route(NormalKey::Char('W'), false), NormalRoute::Session(SessionCmd::Close));
    assert_eq!(route(NormalKey::Char('b'), false), NormalRoute::Session(SessionCmd::Broadcast));
    assert_eq!(SessionCmd::ToggleCompact.text(), "//session:compact");
    assert_eq!(SessionCmd::SwitchToIndex(4).text(), "//session:switch:4");
    // Without Ctrl these are ordinary keys.
    assert_eq!(
        route_normal_key(NormalKey::Tab, false, false, false, false, false, false),
        NormalRoute::Keybind(NormalKey::Tab)
    );
    // The picker keeps its keys.
    assert_eq!(
        route_normal_key(NormalKey::Char('t'), true, false, true, false, false, false),
        NormalRoute::Wizard
    );
}

#[test]
fn ascii_lower_case() {
    assert_eq!(to_ascii_lower('Z'), 'z');
    assert_eq!(to_ascii_lower('é'), 'é');
}

#[test]
fn action_classes() {
    assert_eq!(classify_action("start_search"), ActionKind::Search(SearchAction::Start));
    assert_eq!(classify_action("scroll_current_window_down_page"), ActionKind::Scroll(-20));
    assert_eq!(classify_action("scroll_current_window_home"), ActionKind::Scroll(100000));
    assert_eq!(classify_action("switch_current_window"), ActionKind::SwitchWindow);
    assert_eq!(classify_action("next_unread_tab"), ActionKind::Tab(TabAction::NextUnread));
    assert_eq!(classify_action("cursor_word_left"), ActionKind::CommandInput);
    assert_eq!(classify_action("send_second_last_command"), ActionKind::CommandInput);
    assert_eq!(classify_action("toggle_sound"), ActionKind::Core);
    assert!(should_complete(Some(".sav")));
    assert!(!should_complete(Some("look")));
    assert!(!should_complete(None));
}
