//! What keys and submitted lines mean in normal mode: which keys the frontend
//! keeps for itself, how a key-bound action is handled, and what becomes of a
//! line typed into the command input.
use vstd::prelude::*;

use crate::session_keys::SessionCmd;
use crate::text::{has_prefix, owned, starts_with, str_equal, strip_prefix, trim, trim_owned};

verus! {

broadcast use vstd::string::group_string_axioms;

// ─── Submitted lines ────────────────────────────────────────────────────────

/// What a submitted line asks for.
#[derive(Debug)]
pub enum Submission {
    /// Save the window layout under this name.
    SaveLayout(String),
    /// Load the window layout of this name.
    LoadLayout(String),
    /// Fit the windows to the terminal.
    Resize,
    /// Hand the line to the command processor.
    Command,
}

/// The layout name after a layout command: the text after the command word
/// and one space, trimmed, or `default` when the line is the bare word.
pub open spec fn layout_name(line: Seq<char>, word_and_space: Seq<char>) -> Seq<char> {
    if has_prefix(line, word_and_space) {
        trim(line.subrange(word_and_space.len() as int, line.len() as int))
    } else {
        "default"@
    }
}

/// The layout name of a layout command.
fn layout_name_exec(line: &str, word_and_space: &str) -> (r: String)
    ensures
        r@ == layout_name(line@, word_and_space@),
{
    match strip_prefix(line, word_and_space) {
        Some(rest) => trim_owned(rest.as_str()),
        None => {
            proof {
                reveal_strlit("default");
            }
            owned("default")
        },
    }
}

/// Sorts a submitted line: `.savelayout [name]`, `.loadlayout [name]` and
/// `.resize` are the frontend's own; everything else goes on.
pub fn classify_submission(line: &str) -> (r: Submission)
    ensures
        match r {
            Submission::SaveLayout(name) => {
                &&& (has_prefix(line@, ".savelayout "@) || line@ == ".savelayout"@)
                &&& name@ == layout_name(line@, ".savelayout "@)
            },
            Submission::LoadLayout(name) => {
                &&& !(has_prefix(line@, ".savelayout "@) || line@ == ".savelayout"@)
                &&& (has_prefix(line@, ".loadlayout "@) || line@ == ".loadlayout"@)
                &&& name@ == layout_name(line@, ".loadlayout "@)
            },
            Submission::Resize => {
                &&& !(has_prefix(line@, ".savelayout "@) || line@ == ".savelayout"@)
                &&& !(has_prefix(line@, ".loadlayout "@) || line@ == ".loadlayout"@)
                &&& line@ == ".resize"@
            },
            Submission::Command => {
                &&& !(has_prefix(line@, ".savelayout "@) || line@ == ".savelayout"@)
                &&& !(has_prefix(line@, ".loadlayout "@) || line@ == ".loadlayout"@)
                &&& line@ != ".resize"@
            },
        },
{
    if starts_with(line, ".savelayout ") || str_equal(line, ".savelayout") {
        Submission::SaveLayout(layout_name_exec(line, ".savelayout "))
    } else if starts_with(line, ".loadlayout ") || str_equal(line, ".loadlayout") {
        Submission::LoadLayout(layout_name_exec(line, ".loadlayout "))
    } else if str_equal(line, ".resize") {
        Submission::Resize
    } else {
        Submission::Command
    }
}

/// Where the command processor's answer to a line goes.
#[derive(Debug, Clone, Copy, PartialEq, Eq)]
pub enum Outgoing {
    /// An `action:` line: a menu action handled in the frontend.
    MenuAction,
    /// Nothing to send.
    Nothing,
    /// Send it to the game.
    Network,
}

/// Routes what the command processor made of a submitted line.
pub fn route_outgoing(to_send: &str) -> (r: Outgoing)
    ensures
        r == (if has_prefix(to_send@, "action:"@) {
            Outgoing::MenuAction
        } else if to_send@.len() == 0 {
            Outgoing::Nothing
        } else {
            Outgoing::Network
        }),
{
    if starts_with(to_send, "action:") {
        Outgoing::MenuAction
    } else if to_send.is_empty() {
        Outgoing::Nothing
    } else {
        Outgoing::Network
    }
}

// ─── Keys in normal mode ────────────────────────────────────────────────────

/// A key in normal mode.
#[derive(Debug, Clone, Copy, PartialEq, Eq)]
pub enum NormalKey {
    Char(char),
    Enter,
    Tab,
    BackTab,
    Left,
    Right,
    Esc,
    Other,
}

/// Where a key goes in normal mode, before key bindings are looked at.
#[derive(Debug, Clone, Copy, PartialEq, Eq)]
pub enum NormalRoute {
    /// Ctrl+C (without Shift): quit.
    Quit,
    /// A session shortcut: Ctrl+1 to Ctrl+9 switch to that session,
    /// Ctrl+Tab and Ctrl+Shift+Tab go to the next and previous session,
    /// Ctrl+T opens one, Ctrl+W closes the current one, Ctrl+B broadcasts
    /// the next command and Ctrl+Shift+C toggles the compact tab bar.
    Session(SessionCmd),
    /// The character picker is open: the key is the picker's.
    Wizard,
    /// A setup overlay is shown: any key dismisses it (`//setup:dismiss`).
    DismissSetup,
    /// Move the selection of the focused quickbar, which has a widget, by
    /// this many entries. A quickbar without a widget leaves Left and Right
    /// to the key bindings.
    QuickbarMove(i32),
    /// Activate the quickbar selection; when it gives nothing, the key goes on
    /// as Enter and the command input is submitted.
    QuickbarActivate,
    /// Esc on the quickbar: only redraw.
    QuickbarEsc,
    /// Shift+Tab: focus the previous window.
    CycleWindowReverse,
    /// Enter: submit the command input.
    Submit,
    /// Look this key up in the key bindings (letters in lower case); without
    /// a binding it is typed into the command input.
    Keybind(NormalKey),
}

/// The key as key bindings are looked up: letters in lower case.
pub open spec fn normalized(key: NormalKey) -> NormalKey {
    match key {
        NormalKey::Char(c) => NormalKey::Char(ascii_lower(c)),
        other => other,
    }
}

/// `c` in ASCII lower case, as `char::to_ascii_lowercase`.
pub open spec fn ascii_lower(c: char) -> char {
    if 'A' <= c && c <= 'Z' {
        ((c as u32) + 32) as char
    } else {
        c
    }
}

/// ASCII lower case of a character.
pub fn to_ascii_lower(c: char) -> (r: char)
    ensures
        r == ascii_lower(c),
{
    if 'A' <= c && c <= 'Z' {
        let u: u32 = (c as u32) + 32;
        assert(0x61 <= u <= 0x7A);
        char_from_ascii(u as u8)
    } else {
        c
    }
}

/// The character of an ASCII code.
fn char_from_ascii(b: u8) -> (c: char)
    requires
        b < 128,
    ensures
        c as u32 == b as u32,
{
    b as char
}

/// The key is `c` in either case.
pub open spec fn is_letter_key(key: NormalKey, c: char) -> bool {
    key == NormalKey::Char(c) || key == NormalKey::Char(((c as u32) - 32) as char)
}

/// The session command that a key held with Ctrl asks for.
pub open spec fn session_shortcut(key: NormalKey, shift: bool) -> Option<SessionCmd> {
    match key {
        NormalKey::Char(c) => if '1' <= c && c <= '9' {
            Some(SessionCmd::SwitchToIndex(((c as u32) - 48) as usize))
        } else if shift && is_letter_key(key, 'c') {
            Some(SessionCmd::ToggleCompact)
        } else if is_letter_key(key, 't') {
            Some(SessionCmd::New)
        } else if is_letter_key(key, 'w') {
            Some(SessionCmd::Close)
        } else if is_letter_key(key, 'b') {
            Some(SessionCmd::Broadcast)
        } else {
            None
        },
        NormalKey::Tab => Some(SessionCmd::Next),
        NormalKey::BackTab => Some(SessionCmd::Prev),
        _ => None,
    }
}

/// The session command of a key held with Ctrl.
fn shortcut_of(key: NormalKey, shift: bool) -> (r: Option<SessionCmd>)
    ensures
        r == session_shortcut(key, shift),
{
    match key {
        NormalKey::Char(c) => {
            if '1' <= c && c <= '9' {
                let d: u32 = (c as u32) - 48;
                Some(SessionCmd::SwitchToIndex(d as usize))
            } else if shift && (c == 'c' || c == 'C') {
                Some(SessionCmd::ToggleCompact)
            } else if c == 't' || c == 'T' {
                Some(SessionCmd::New)
            } else if c == 'w' || c == 'W' {
                Some(SessionCmd::Close)
            } else if c == 'b' || c == 'B' {
                Some(SessionCmd::Broadcast)
            } else {
                None
            }
        },
        NormalKey::Tab => Some(SessionCmd::Next),
        NormalKey::BackTab => Some(SessionCmd::Prev),
        _ => None,
    }
}

/// Decides where a normal-mode key goes. The frontend's own keys come
/// first: Ctrl+C, then the open picker, then a setup overlay, then the
/// session shortcuts, then the quickbar's keys when a quickbar has the focus
/// (Left and Right only when it has a widget), then Shift+Tab and Enter.
pub fn route_normal_key(
    key: NormalKey,
    ctrl: bool,
    shift: bool,
    wizard_open: bool,
    setup_shown: bool,
    quickbar_focused: bool,
    quickbar_widget: bool,
) -> (r: NormalRoute)
    ensures
        r == (if ctrl && !shift && is_letter_key(key, 'c') {
            NormalRoute::Quit
        } else if wizard_open {
            NormalRoute::Wizard
        } else if setup_shown {
            NormalRoute::DismissSetup
        } else if ctrl && session_shortcut(key, shift) is Some {
            NormalRoute::Session(session_shortcut(key, shift)->0)
        } else if quickbar_focused && quickbar_widget && key == NormalKey::Left {
            NormalRoute::QuickbarMove(-1i32)
        } else if quickbar_focused && quickbar_widget && key == NormalKey::Right {
            NormalRoute::QuickbarMove(1i32)
        } else if quickbar_focused && quickbar_widget && key == NormalKey::Enter {
            NormalRoute::QuickbarActivate
        } else if quickbar_focused && key == NormalKey::Esc {
            NormalRoute::QuickbarEsc
        } else if key == NormalKey::BackTab {
            NormalRoute::CycleWindowReverse
        } else if key == NormalKey::Enter {
            NormalRoute::Submit
        } else {
            NormalRoute::Keybind(normalized(key))
        }),
{
    let is_c = match key {
        NormalKey::Char(c) => c == 'c' || c == 'C',
        _ => false,
    };
    if ctrl && !shift && is_c {
        return NormalRoute::Quit;
    }
    if wizard_open {
        return NormalRoute::Wizard;
    }
    if setup_shown {
        return NormalRoute::DismissSetup;
    }
    if ctrl {
        if let Some(cmd) = shortcut_of(key, shift) {
            return NormalRoute::Session(cmd);
        }
    }
    if quickbar_focused {
        match key {
            NormalKey::Left => {
                if quickbar_widget {
                    return NormalRoute::QuickbarMove(-1);
                }
            },
            NormalKey::Right => {
                if quickbar_widget {
                    return NormalRoute::QuickbarMove(1);
                }
            },
            NormalKey::Enter => {
                if quickbar_widget {
                    return NormalRoute::QuickbarActivate;
                }
            },
            NormalKey::Esc => return NormalRoute::QuickbarEsc,
            _ => {},
        }
    }
    match key {
        NormalKey::BackTab => NormalRoute::CycleWindowReverse,
        NormalKey::Enter => NormalRoute::Submit,
        NormalKey::Char(c) => NormalRoute::Keybind(NormalKey::Char(to_ascii_lower(c))),
        other => NormalRoute::Keybind(other),
    }
}

// ─── Key-bound actions ──────────────────────────────────────────────────────

/// A search action.
#[derive(Debug, Clone, Copy, PartialEq, Eq)]
pub enum SearchAction {
    Start,
    NextMatch,
    PrevMatch,
    Clear,
}

/// A tab action of tabbed windows.
#[derive(Debug, Clone, Copy, PartialEq, Eq)]
pub enum TabAction {
    Next,
    Prev,
    NextUnread,
}

/// How a key-bound action is handled.
#[derive(Debug, Clone, Copy, PartialEq, Eq)]
pub enum ActionKind {
    /// A search action, for the frontend.
    Search(SearchAction),
    /// Scroll the focused window by this many lines (positive is up).
    Scroll(i32),
    /// Tab: complete a dot command, or focus the next window.
    SwitchWindow,
    /// A tab action of the tabbed windows.
    Tab(TabAction),
    /// An editing action of the command input.
    CommandInput,
    /// Anything else: executed by the core.
    Core,
}

/// The names of the command input's editing actions.
pub open spec fn is_command_input_action(a: Seq<char>) -> bool {
    ||| a == "cursor_left"@
    ||| a == "cursor_right"@
    ||| a == "cursor_word_left"@
    ||| a == "cursor_word_right"@
    ||| a == "cursor_home"@
    ||| a == "cursor_end"@
    ||| a == "cursor_backspace"@
    ||| a == "cursor_delete"@
    ||| a == "previous_command"@
    ||| a == "next_command"@
    ||| a == "send_last_command"@
    ||| a == "send_second_last_command"@
}

/// How the action named `a` is handled.
pub open spec fn action_kind(a: Seq<char>) -> ActionKind {
    if a == "start_search"@ {
        ActionKind::Search(SearchAction::Start)
    } else if a == "next_search_match"@ {
        ActionKind::Search(SearchAction::NextMatch)
    } else if a == "prev_search_match"@ {
        ActionKind::Search(SearchAction::PrevMatch)
    } else if a == "clear_search"@ {
        ActionKind::Search(SearchAction::Clear)
    } else if a == "scroll_current_window_up_one"@ {
        ActionKind::Scroll(1i32)
    } else if a == "scroll_current_window_down_one"@ {
        ActionKind::Scroll(-1i32)
    } else if a == "scroll_current_window_up_page"@ {
        ActionKind::Scroll(20i32)
    } else if a == "scroll_current_window_down_page"@ {
        ActionKind::Scroll(-20i32)
    } else if a == "scroll_current_window_home"@ {
        ActionKind::Scroll(100000i32)
    } else if a == "scroll_current_window_end"@ {
        ActionKind::Scroll(-100000i32)
    } else if a == "switch_current_window"@ {
        ActionKind::SwitchWindow
    } else if a == "next_tab"@ {
        ActionKind::Tab(TabAction::Next)
    } else if a == "prev_tab"@ {
        ActionKind::Tab(TabAction::Prev)
    } else if a == "next_unread_tab"@ {
        ActionKind::Tab(TabAction::NextUnread)
    } else if is_command_input_action(a) {
        ActionKind::CommandInput
    } else {
        ActionKind::Core
    }
}

/// The name of the action that scrolls the focused window in direction
/// `dir` (`up` or `down`) by `unit` (`one` line or a `page`).
pub open spec fn scroll_action(dir: Seq<char>, unit: Seq<char>) -> Seq<char> {
    "scroll_current_window_"@ + dir + "_"@ + unit
}

/// Only the scroll actions scroll.
proof fn lemma_scroll_only_named(a: Seq<char>)
    ensures
        action_kind(a) is Scroll ==> {
            ||| a == "scroll_current_window_up_one"@
            ||| a == "scroll_current_window_down_one"@
            ||| a == "scroll_current_window_up_page"@
            ||| a == "scroll_current_window_down_page"@
            ||| a == "scroll_current_window_home"@
            ||| a == "scroll_current_window_end"@
        },
{
}

/// Home scrolls to the top and End to the bottom of the focused window.
proof fn lemma_home_end()
    ensures
        action_kind("scroll_current_window_home"@) == ActionKind::Scroll(100000i32),
        action_kind("scroll_current_window_end"@) == ActionKind::Scroll(-100000i32),
{
    reveal_strlit("start_search");
    reveal_strlit("next_search_match");
    reveal_strlit("prev_search_match");
    reveal_strlit("clear_search");
    reveal_strlit("scroll_current_window_up_one");
    reveal_strlit("scroll_current_window_down_one");
    reveal_strlit("scroll_current_window_up_page");
    reveal_strlit("scroll_current_window_down_page");
    reveal_strlit("scroll_current_window_home");
    reveal_strlit("scroll_current_window_end");
    let h = "scroll_current_window_home"@;
    let e = "scroll_current_window_end"@;
    assert(h.len() == 26 && e.len() == 25);
    assert(h != "start_search"@ && h != "next_search_match"@ && h != "prev_search_match"@);
    assert(h != "clear_search"@ && h != "scroll_current_window_up_one"@);
    assert(h != "scroll_current_window_down_one"@ && h != "scroll_current_window_up_page"@);
    assert(h != "scroll_current_window_down_page"@);
    assert(e != "start_search"@ && e != "next_search_match"@ && e != "prev_search_match"@);
    assert(e != "clear_search"@ && e != "scroll_current_window_up_one"@);
    assert(e != "scroll_current_window_down_one"@ && e != "scroll_current_window_up_page"@);
    assert(e != "scroll_current_window_down_page"@ && e != h);
}

/// Up and down scroll actions come in pairs: an action that scrolls up by a
/// unit scrolls by a positive number of lines, and the action that scrolls
/// down by the same unit scrolls back by exactly as many; scrolling up one
/// line is one line. Home goes up and End goes down by the same amount.
pub proof fn lemma_scroll_directions(unit: Seq<char>)
    ensures
        action_kind(scroll_action("up"@, unit)) matches ActionKind::Scroll(k) ==> {
            &&& k > 0
            &&& action_kind(scroll_action("down"@, unit)) matches ActionKind::Scroll(j)
            &&& j == -k
        },
        action_kind(scroll_action("down"@, unit)) matches ActionKind::Scroll(j) ==> {
            &&& j < 0
            &&& action_kind(scroll_action("up"@, unit)) matches ActionKind::Scroll(k)
            &&& j == -k
        },
        action_kind(scroll_action("up"@, "one"@)) == ActionKind::Scroll(1i32),
        action_kind(scroll_action("down"@, "one"@)) == ActionKind::Scroll(-1i32),
        action_kind("scroll_current_window_home"@) matches ActionKind::Scroll(k) && k > 0
            && action_kind("scroll_current_window_end"@) == ActionKind::Scroll((-k) as i32),
{
    reveal_strlit("scroll_current_window_");
    reveal_strlit("up");
    reveal_strlit("down");
    reveal_strlit("_");
    reveal_strlit("one");
    reveal_strlit("page");
    reveal_strlit("scroll_current_window_up_one");
    reveal_strlit("scroll_current_window_down_one");
    reveal_strlit("scroll_current_window_up_page");
    reveal_strlit("scroll_current_window_down_page");
    reveal_strlit("scroll_current_window_home");
    reveal_strlit("scroll_current_window_end");
    reveal_strlit("start_search");
    reveal_strlit("next_search_match");
    reveal_strlit("prev_search_match");
    reveal_strlit("clear_search");
    lemma_home_end();
    let u = scroll_action("up"@, unit);
    let d = scroll_action("down"@, unit);
    assert(u.len() == 25 + unit.len());
    assert(d.len() == 27 + unit.len());
    assert(u[22] == 'u' && u[24] == '_');
    assert(d[22] == 'd' && d[26] == '_');
    assert(u.subrange(25, u.len() as int) =~= unit);
    assert(d.subrange(27, d.len() as int) =~= unit);
    assert(scroll_action("up"@, "one"@) =~= "scroll_current_window_up_one"@);
    assert(scroll_action("down"@, "one"@) =~= "scroll_current_window_down_one"@);
    assert(scroll_action("up"@, "page"@) =~= "scroll_current_window_up_page"@);
    assert(scroll_action("down"@, "page"@) =~= "scroll_current_window_down_page"@);
    lemma_scroll_only_named(u);
    lemma_scroll_only_named(d);
    if unit == "one"@ {
        assert(u == "scroll_current_window_up_one"@);
        assert(d == "scroll_current_window_down_one"@);
        assert(action_kind(u) == ActionKind::Scroll(1i32));
        assert(action_kind(d) == ActionKind::Scroll(-1i32));
    } else if unit == "page"@ {
        assert(u == "scroll_current_window_up_page"@);
        assert(d == "scroll_current_window_down_page"@);
        assert(action_kind(u) == ActionKind::Scroll(20i32));
        assert(action_kind(d) == ActionKind::Scroll(-20i32));
    } else {
        assert(u != "scroll_current_window_up_one"@) by {
            if u == "scroll_current_window_up_one"@ {
                assert("scroll_current_window_up_one"@.subrange(25, 28) =~= "one"@);
            }
        }
        assert(u != "scroll_current_window_up_page"@) by {
            if u == "scroll_current_window_up_page"@ {
                assert("scroll_current_window_up_page"@.subrange(25, 29) =~= "page"@);
            }
        }
        assert(u != "scroll_current_window_down_one"@ && u != "scroll_current_window_down_page"@);
        assert(u != "scroll_current_window_home"@ && u != "scroll_current_window_end"@);
        assert(d != "scroll_current_window_down_one"@) by {
            if d == "scroll_current_window_down_one"@ {
                assert("scroll_current_window_down_one"@.subrange(27, 30) =~= "one"@);
            }
        }
        assert(d != "scroll_current_window_down_page"@) by {
            if d == "scroll_current_window_down_page"@ {
                assert("scroll_current_window_down_page"@.subrange(27, 31) =~= "page"@);
            }
        }
        assert(d != "scroll_current_window_up_one"@ && d != "scroll_current_window_up_page"@);
        assert(d != "scroll_current_window_home"@ && d != "scroll_current_window_end"@);
        assert(action_kind(u) !is Scroll);
        assert(action_kind(d) !is Scroll);
    }
}

/// Sorts a key-bound action by who handles it.
pub fn classify_action(action: &str) -> (k: ActionKind)
    ensures
        k == action_kind(action@),
{
    if str_equal(action, "start_search") {
        ActionKind::Search(SearchAction::Start)
    } else if str_equal(action, "next_search_match") {
        ActionKind::Search(SearchAction::NextMatch)
    } else if str_equal(action, "prev_search_match") {
        ActionKind::Search(SearchAction::PrevMatch)
    } else if str_equal(action, "clear_search") {
        ActionKind::Search(SearchAction::Clear)
    } else if str_equal(action, "scroll_current_window_up_one") {
        ActionKind::Scroll(1)
    } else if str_equal(action, "scroll_current_window_down_one") {
        ActionKind::Scroll(-1)
    } else if str_equal(action, "scroll_current_window_up_page") {
        ActionKind::Scroll(20)
    } else if str_equal(action, "scroll_current_window_down_page") {
        ActionKind::Scroll(-20)
    } else if str_equal(action, "scroll_current_window_home") {
        ActionKind::Scroll(100000)
    } else if str_equal(action, "scroll_current_window_end") {
        ActionKind::Scroll(-100000)
    } else if str_equal(action, "switch_current_window") {
        ActionKind::SwitchWindow
    } else if str_equal(action, "next_tab") {
        ActionKind::Tab(TabAction::Next)
    } else if str_equal(action, "prev_tab") {
        ActionKind::Tab(TabAction::Prev)
    } else if str_equal(action, "next_unread_tab") {
        ActionKind::Tab(TabAction::NextUnread)
    } else if str_equal(action, "cursor_left") || str_equal(action, "cursor_right") || str_equal(
        action,
        "cursor_word_left",
    ) || str_equal(action, "cursor_word_right") || str_equal(action, "cursor_home") || str_equal(
        action,
        "cursor_end",
    ) || str_equal(action, "cursor_backspace") || str_equal(action, "cursor_delete")
        || str_equal(action, "previous_command") || str_equal(action, "next_command") || str_equal(
        action,
        "send_last_command",
    ) || str_equal(action, "send_second_last_command") {
        ActionKind::CommandInput
    } else {
        ActionKind::Core
    }
}

/// Whether Tab completes a dot command: the command input holds text that
/// starts with `.`.
pub fn should_complete(input: Option<&str>) -> (b: bool)
    ensures
        b == (match input {
            Some(t) => has_prefix(t@, "."@),
            None => false,
        }),
{
    match input {
        Some(t) => starts_with(t, "."),
        None => false,
    }
}

} // verus!
