//! The multi-profile character picker shown at launch.
//!
//! Two modes: the list of saved profiles (Enter connects, N/E/D add, edit and
//! delete), and a form that adds or edits one profile.
use vstd::prelude::*;

use crate::connection::clone_opt_string;
use crate::text::{
    decimal, decimal_string, is_digit, pop_last, lemma_parse_decimal, owned, parse_u16, parse_unsigned,
    pop_char, push_char, str_equal,
};

verus! {

broadcast use vstd::string::group_string_axioms;

// ─── Games ──────────────────────────────────────────────────────────────────

/// How many games the picker offers.
pub const GAME_COUNT: usize = 4;

/// The code of the `i`-th game: Prime, Platinum, Shattered, DragonRealms.
pub open spec fn game_code_text(i: int) -> Seq<char> {
    if i == 0 {
        "GS3"@
    } else if i == 1 {
        "GSX"@
    } else if i == 2 {
        "GSF"@
    } else {
        "DR"@
    }
}

/// The position of a game code in the list of games, or 0 when it is none of
/// them.
pub open spec fn game_index_of(code: Seq<char>) -> int {
    if code == "GS3"@ {
        0
    } else if code == "GSX"@ {
        1
    } else if code == "GSF"@ {
        2
    } else if code == "DR"@ {
        3
    } else {
        0
    }
}

/// The code of the `i`-th game.
pub fn game_code(i: usize) -> (r: &'static str)
    requires
        i < GAME_COUNT,
    ensures
        r@ == game_code_text(i as int),
{
    if i == 0 {
        "GS3"
    } else if i == 1 {
        "GSX"
    } else if i == 2 {
        "GSF"
    } else {
        "DR"
    }
}

/// The display name of the `i`-th game.
pub open spec fn game_name_text(i: int) -> Seq<char> {
    if i == 0 {
        "GemStone IV (Prime)"@
    } else if i == 1 {
        "GemStone IV (Platinum)"@
    } else if i == 2 {
        "GemStone IV (Shattered)"@
    } else {
        "DragonRealms"@
    }
}

/// The display name of the `i`-th game.
pub fn game_name(i: usize) -> (r: &'static str)
    requires
        i < GAME_COUNT,
    ensures
        r@ == game_name_text(i as int),
{
    if i == 0 {
        "GemStone IV (Prime)"
    } else if i == 1 {
        "GemStone IV (Platinum)"
    } else if i == 2 {
        "GemStone IV (Shattered)"
    } else {
        "DragonRealms"
    }
}

/// The position of `code` among the games, or 0 when it is none of them.
fn game_position(code: &str) -> (r: usize)
    ensures
        r as int == game_index_of(code@),
        r < GAME_COUNT,
{
    if str_equal(code, "GS3") {
        0
    } else if str_equal(code, "GSX") {
        1
    } else if str_equal(code, "GSF") {
        2
    } else if str_equal(code, "DR") {
        3
    } else {
        0
    }
}

// ─── Profiles ───────────────────────────────────────────────────────────────

/// A profile as the picker shows and edits it.
#[derive(Debug)]
pub struct Profile {
    pub name: String,
    pub account: String,
    pub character: String,
    pub game_code: String,
    pub use_lich: bool,
    pub lich_host: Option<String>,
    pub lich_port: Option<u16>,
}

/// The contents of a [`Profile`].
pub struct ProfileView {
    pub name: Seq<char>,
    pub account: Seq<char>,
    pub character: Seq<char>,
    pub game_code: Seq<char>,
    pub use_lich: bool,
    pub lich_host: Option<Seq<char>>,
    pub lich_port: Option<u16>,
}

/// The contents of an optional string.
pub open spec fn opt_view(s: Option<String>) -> Option<Seq<char>> {
    match s {
        Some(x) => Some(x@),
        None => None,
    }
}

impl View for Profile {
    type V = ProfileView;

    open spec fn view(&self) -> ProfileView {
        ProfileView {
            name: self.name@,
            account: self.account@,
            character: self.character@,
            game_code: self.game_code@,
            use_lich: self.use_lich,
            lich_host: opt_view(self.lich_host),
            lich_port: self.lich_port,
        }
    }
}

impl Clone for Profile {
    fn clone(&self) -> (r: Self)
        ensures
            r == *self,
    {
        Profile {
            name: self.name.clone(),
            account: self.account.clone(),
            character: self.character.clone(),
            game_code: self.game_code.clone(),
            use_lich: self.use_lich,
            lich_host: clone_opt_string(&self.lich_host),
            lich_port: self.lich_port,
        }
    }
}

impl Profile {
    pub fn lich_host(&self) -> (r: &str)
        ensures
            r@ == (match self.lich_host {
                Some(h) => h@,
                None => "127.0.0.1"@,
            }),
    {
        match &self.lich_host {
            Some(h) => h.as_str(),
            None => "127.0.0.1",
        }
    }

    pub fn lich_port(&self) -> (r: u16)
        ensures
            r == (match self.lich_port {
                Some(p) => p,
                None => 8000u16,
            }),
    {
        match self.lich_port {
            Some(p) => p,
            None => 8000,
        }
    }
}

/// The views of a list of profiles.
pub open spec fn profile_views(s: Seq<Profile>) -> Seq<ProfileView> {
    s.map_values(|p: Profile| p@)
}

/// What the picker ends with.
#[derive(Debug)]
pub enum PickerResult {
    Connect(Profile),
    Quit,
}

impl Clone for PickerResult {
    fn clone(&self) -> (r: Self)
        ensures
            r == *self,
    {
        match self {
            PickerResult::Connect(p) => PickerResult::Connect(p.clone()),
            PickerResult::Quit => PickerResult::Quit,
        }
    }
}

/// The contents of a [`PickerResult`].
pub enum ResultView {
    Connect(ProfileView),
    Quit,
}

/// The contents of an optional [`PickerResult`].
pub open spec fn result_view(r: Option<PickerResult>) -> Option<ResultView> {
    match r {
        Some(PickerResult::Connect(p)) => Some(ResultView::Connect(p@)),
        Some(PickerResult::Quit) => Some(ResultView::Quit),
        None => None,
    }
}

// ─── Modes and fields ───────────────────────────────────────────────────────

/// Whether the picker lists profiles or edits one.
#[derive(Debug, Clone, Copy, PartialEq, Eq, Structural)]
pub enum Mode {
    List,
    Edit,
}

/// A field of the edit form.
#[derive(Debug, Clone, Copy, PartialEq, Eq, Structural)]
pub enum EditField {
    Name,
    Account,
    Password,
    Game,
    Character,
    UseLich,
    LichHost,
    LichPort,
}

/// The `i`-th field of the form; the two Lich fields come last and are shown
/// only when the profile uses Lich.
pub open spec fn field_at(i: int) -> EditField {
    if i == 0 {
        EditField::Name
    } else if i == 1 {
        EditField::Account
    } else if i == 2 {
        EditField::Password
    } else if i == 3 {
        EditField::Game
    } else if i == 4 {
        EditField::Character
    } else if i == 5 {
        EditField::UseLich
    } else if i == 6 {
        EditField::LichHost
    } else {
        EditField::LichPort
    }
}

/// How many fields the form shows.
pub open spec fn fields_len(use_lich: bool) -> int {
    if use_lich {
        8
    } else {
        6
    }
}

/// The message shown when a profile lacks what it needs.
pub open spec fn required_message() -> Seq<char> {
    "Name, account, and character are required."@
}

// ─── The picker's abstract state and its transitions ────────────────────────

/// The abstract state of a [`ProfilePicker`].
pub struct PickerView {
    pub result: Option<ResultView>,
    pub profiles: Seq<ProfileView>,
    pub selected: int,
    pub mode: Mode,
    pub edit_idx: Option<int>,
    pub field_idx: int,
    pub f_name: Seq<char>,
    pub f_account: Seq<char>,
    pub f_password: Seq<char>,
    pub f_game_idx: int,
    pub f_character: Seq<char>,
    pub f_use_lich: bool,
    pub f_lich_host: Seq<char>,
    pub f_lich_port: Seq<char>,
    pub characters: Seq<Seq<char>>,
    pub needs_fetch: bool,
    pub error: Option<Seq<char>>,
}

impl PickerView {
    /// The picker's invariant: the selection is on a profile (or 0 when there
    /// is none), the field index is on a shown field, the game is one of them.
    pub open spec fn wf(self) -> bool {
        &&& 0 <= self.selected
        &&& (self.selected < self.profiles.len() || (self.profiles.len() == 0 && self.selected == 0))
        &&& 0 <= self.field_idx < fields_len(self.f_use_lich)
        &&& 0 <= self.f_game_idx < GAME_COUNT
    }

    /// The field that has the focus in the form.
    pub open spec fn current_field(self) -> EditField {
        let last = fields_len(self.f_use_lich) - 1;
        field_at(
            if self.field_idx < last {
                self.field_idx
            } else {
                last
            },
        )
    }

    /// After typing `c`: it goes at the end of the focused text field; the
    /// port takes digits only; nothing happens in the list.
    pub open spec fn typed(self, c: char) -> PickerView {
        if self.mode == Mode::List {
            self
        } else {
            match self.current_field() {
                EditField::Name => PickerView { f_name: self.f_name.push(c), ..self },
                EditField::Account => PickerView { f_account: self.f_account.push(c), ..self },
                EditField::Password => PickerView { f_password: self.f_password.push(c), ..self },
                EditField::Character => PickerView { f_character: self.f_character.push(c), ..self },
                EditField::LichHost => PickerView { f_lich_host: self.f_lich_host.push(c), ..self },
                EditField::LichPort => if is_digit(c) {
                    PickerView { f_lich_port: self.f_lich_port.push(c), ..self }
                } else {
                    self
                },
                _ => self,
            }
        }
    }

    /// After Backspace: the focused text field loses its last character.
    pub open spec fn backspaced(self) -> PickerView {
        if self.mode == Mode::List {
            self
        } else {
            match self.current_field() {
                EditField::Name => PickerView { f_name: pop_last(self.f_name), ..self },
                EditField::Account => PickerView { f_account: pop_last(self.f_account), ..self },
                EditField::Password => PickerView { f_password: pop_last(self.f_password), ..self },
                EditField::Character => PickerView {
                    f_character: pop_last(self.f_character),
                    ..self
                },
                EditField::LichHost => PickerView { f_lich_host: pop_last(self.f_lich_host), ..self },
                EditField::LichPort => PickerView { f_lich_port: pop_last(self.f_lich_port), ..self },
                _ => self,
            }
        }
    }

    /// Arriving on the Use Lich field flips it.
    pub open spec fn toggle_if_on_use_lich(self) -> PickerView {
        if self.current_field() == EditField::UseLich {
            PickerView { f_use_lich: !self.f_use_lich, ..self }
        } else {
            self
        }
    }

    /// After Up: the selection moves up in the list (stopping at the top); in
    /// the form the focus moves up, and arriving on Use Lich flips it.
    pub open spec fn moved_up(self) -> PickerView {
        if self.mode == Mode::List {
            if self.selected > 0 {
                PickerView { selected: self.selected - 1, ..self }
            } else {
                self
            }
        } else {
            let up = if self.field_idx > 0 {
                PickerView { field_idx: self.field_idx - 1, ..self }
            } else {
                self
            };
            up.toggle_if_on_use_lich()
        }
    }

    /// After Down: the selection moves down in the list (stopping at the
    /// bottom); in the form the focus moves down, and arriving on Use Lich
    /// flips it.
    pub open spec fn moved_down(self) -> PickerView {
        if self.mode == Mode::List {
            if self.selected + 1 < self.profiles.len() {
                PickerView { selected: self.selected + 1, ..self }
            } else {
                self
            }
        } else {
            let down = if self.field_idx < fields_len(self.f_use_lich) - 1 {
                PickerView { field_idx: self.field_idx + 1, ..self }
            } else {
                self
            };
            down.toggle_if_on_use_lich()
        }
    }

    /// After Left (`forward` false) or Right (`forward` true) on the Game
    /// field of the form: the previous or next game, wrapping around.
    pub open spec fn game_cycled(self, forward: bool) -> PickerView {
        if self.mode == Mode::Edit && self.current_field() == EditField::Game {
            PickerView {
                f_game_idx: if forward {
                    (self.f_game_idx + 1) % (GAME_COUNT as int)
                } else if self.f_game_idx > 0 {
                    self.f_game_idx - 1
                } else {
                    GAME_COUNT - 1
                },
                ..self
            }
        } else {
            self
        }
    }

    /// After Tab: the focus moves to the next field, stopping at the last.
    pub open spec fn tabbed(self) -> PickerView {
        if self.mode == Mode::Edit && self.field_idx < fields_len(self.f_use_lich) - 1 {
            PickerView { field_idx: self.field_idx + 1, ..self }
        } else {
            self
        }
    }

    /// After `n` presses of Tab.
    pub open spec fn tabbed_times(self, n: nat) -> PickerView
        decreases n,
    {
        if n == 0 {
            self
        } else {
            self.tabbed().tabbed_times((n - 1) as nat)
        }
    }

    /// Enter on an empty Character field, with account and password given,
    /// asks for the account's characters.
    pub open spec fn fetch_wanted(self) -> bool {
        &&& self.mode == Mode::Edit
        &&& self.current_field() == EditField::Character
        &&& self.f_character.len() == 0
        &&& self.f_account.len() > 0
        &&& self.f_password.len() > 0
    }

    /// The profile that the form describes.
    pub open spec fn form_profile(self) -> ProfileView {
        ProfileView {
            name: self.f_name,
            account: self.f_account,
            character: self.f_character,
            game_code: game_code_text(self.f_game_idx),
            use_lich: self.f_use_lich,
            lich_host: if self.f_use_lich && self.f_lich_host.len() > 0 {
                Some(self.f_lich_host)
            } else {
                None
            },
            lich_port: if self.f_use_lich {
                match parse_unsigned(self.f_lich_port, u16::MAX as nat) {
                    Some(v) => Some(v as u16),
                    None => None,
                }
            } else {
                None
            },
        }
    }

    /// The form lacks a name, an account or a character.
    pub open spec fn form_incomplete(self) -> bool {
        self.f_name.len() == 0 || self.f_account.len() == 0 || self.f_character.len() == 0
    }

    /// After saving the form: an incomplete form only shows the error;
    /// otherwise the profile replaces the one being edited, or is appended and
    /// selected, and the picker returns to the list.
    pub open spec fn saved(self) -> PickerView {
        if self.form_incomplete() {
            PickerView { error: Some(required_message()), ..self }
        } else {
            let p = self.form_profile();
            match self.edit_idx {
                Some(i) => PickerView {
                    profiles: self.profiles.update(i, p),
                    mode: Mode::List,
                    error: None,
                    ..self
                },
                None => PickerView {
                    profiles: self.profiles.push(p),
                    selected: self.profiles.len() as int,
                    mode: Mode::List,
                    error: None,
                    ..self
                },
            }
        }
    }

    /// Saving would write past the end of the list: the profile being edited
    /// was deleted meanwhile.
    pub open spec fn save_overruns(self) -> bool {
        &&& !self.form_incomplete()
        &&& self.edit_idx matches Some(i)
        &&& !(0 <= i < self.profiles.len())
    }

    /// The profile a form edits is still in the list.
    pub open spec fn edit_target_ok(self) -> bool {
        self.mode == Mode::Edit ==> (self.edit_idx matches Some(i) ==> 0 <= i < self.profiles.len())
    }

    /// Enter would save the form now.
    pub open spec fn confirm_saves(self) -> bool {
        &&& self.mode == Mode::Edit
        &&& !self.fetch_wanted()
        &&& self.field_idx == fields_len(self.f_use_lich) - 1
    }

    /// After Enter: in the list, the selected profile is chosen for
    /// connecting; in the form, a character fetch is asked for, or the form is
    /// saved on its last field, or the focus moves on.
    pub open spec fn confirmed(self) -> PickerView {
        let s = PickerView { needs_fetch: false, ..self };
        if self.mode == Mode::List {
            if self.profiles.len() == 0 {
                s
            } else {
                PickerView { result: Some(ResultView::Connect(self.profiles[self.selected])), ..s }
            }
        } else if self.fetch_wanted() {
            PickerView { needs_fetch: true, ..s }
        } else if self.field_idx == fields_len(self.f_use_lich) - 1 {
            s.saved()
        } else {
            PickerView { field_idx: self.field_idx + 1, ..s }
        }
    }

    /// After Esc: the form closes; in the list the picker quits.
    pub open spec fn went_back(self) -> PickerView {
        if self.mode == Mode::Edit {
            PickerView { mode: Mode::List, error: None, ..self }
        } else {
            PickerView { result: Some(ResultView::Quit), ..self }
        }
    }

    /// An empty form for a new profile.
    pub open spec fn started_new(self) -> PickerView {
        PickerView {
            edit_idx: None,
            field_idx: 0,
            f_name: Seq::empty(),
            f_account: Seq::empty(),
            f_password: Seq::empty(),
            f_game_idx: 0,
            f_character: Seq::empty(),
            f_use_lich: false,
            f_lich_host: "127.0.0.1"@,
            f_lich_port: "8000"@,
            characters: Seq::empty(),
            error: None,
            mode: Mode::Edit,
            ..self
        }
    }

    /// The form filled from the selected profile (the password is left
    /// empty); nothing happens when there are no profiles.
    pub open spec fn editing_selected(self) -> PickerView {
        if self.profiles.len() == 0 {
            self
        } else {
            let p = self.profiles[self.selected];
            PickerView {
                edit_idx: Some(self.selected),
                field_idx: 0,
                f_name: p.name,
                f_account: p.account,
                f_password: Seq::empty(),
                f_game_idx: game_index_of(p.game_code),
                f_character: p.character,
                f_use_lich: p.use_lich,
                f_lich_host: match p.lich_host {
                    Some(h) => h,
                    None => "127.0.0.1"@,
                },
                f_lich_port: decimal(
                    (match p.lich_port {
                        Some(port) => port,
                        None => 8000u16,
                    }) as nat,
                ),
                characters: Seq::empty(),
                error: None,
                mode: Mode::Edit,
                ..self
            }
        }
    }

    /// The selected profile deleted; the selection stays in the list.
    pub open spec fn deleted_selected(self) -> PickerView {
        if self.profiles.len() == 0 {
            self
        } else {
            let rest = self.profiles.remove(self.selected);
            PickerView {
                profiles: rest,
                selected: if self.selected > 0 && self.selected >= rest.len() {
                    self.selected - 1
                } else {
                    self.selected
                },
                ..self
            }
        }
    }

    /// The account's characters received: the first fills an empty Character
    /// field.
    pub open spec fn with_characters(self, chars: Seq<Seq<char>>) -> PickerView {
        PickerView {
            characters: chars,
            f_character: if chars.len() > 0 && self.f_character.len() == 0 {
                chars[0]
            } else {
                self.f_character
            },
            needs_fetch: false,
            ..self
        }
    }

    /// The fetch failed with `msg`.
    pub open spec fn with_error(self, msg: Seq<char>) -> PickerView {
        PickerView { error: Some(msg), needs_fetch: false, ..self }
    }
}

// ─── Laws ───────────────────────────────────────────────────────────────────

/// A profile that the form can show without loss: it has a name, an account
/// and a character, its game is one of the offered games, and its Lich host and
/// port are given exactly when it uses Lich (with a non-empty host).
pub open spec fn shows_without_loss(p: ProfileView) -> bool {
    &&& p.name.len() > 0
    &&& p.account.len() > 0
    &&& p.character.len() > 0
    &&& (p.game_code == "GS3"@ || p.game_code == "GSX"@ || p.game_code == "GSF"@ || p.game_code
        == "DR"@)
    &&& if p.use_lich {
        &&& p.lich_host matches Some(h) && h.len() > 0
        &&& p.lich_port is Some
    } else {
        &&& p.lich_host is None
        &&& p.lich_port is None
    }
}

/// Pressing Tab in the form moves the focus forward and stops at the last
/// field; nothing else changes.
pub proof fn lemma_tabbed_times(v: PickerView, n: nat)
    requires
        v.mode == Mode::Edit,
        0 <= v.field_idx < fields_len(v.f_use_lich),
    ensures
        v.tabbed_times(n) == (PickerView {
            field_idx: if v.field_idx + n < fields_len(v.f_use_lich) - 1 {
                v.field_idx + n
            } else {
                fields_len(v.f_use_lich) - 1
            },
            ..v
        }),
    decreases n,
{
    if n > 0 {
        lemma_tabbed_times(v.tabbed(), (n - 1) as nat);
    }
}

/// The game index of an offered game's code points back to that code.
proof fn lemma_game_round_trip(code: Seq<char>)
    requires
        code == "GS3"@ || code == "GSX"@ || code == "GSF"@ || code == "DR"@,
    ensures
        game_code_text(game_index_of(code)) == code,
        0 <= game_index_of(code) < GAME_COUNT,
{
    reveal_strlit("GS3");
    reveal_strlit("GSX");
    reveal_strlit("GSF");
    reveal_strlit("DR");
    if code == "GSX"@ {
        assert(code[2] != "GS3"@[2]);
    } else if code == "GSF"@ {
        assert(code[2] != "GS3"@[2]);
        assert(code[2] != "GSX"@[2]);
    }
}

/// Opening the form on the selected profile, tabbing to the last field and
/// pressing Enter saves the profile unchanged and returns to the list, for a
/// profile that the form shows without loss.
pub proof fn lemma_edit_then_save(v: PickerView)
    requires
        v.wf(),
        v.profiles.len() > 0,
        shows_without_loss(v.profiles[v.selected]),
    ensures
        !v.editing_selected().tabbed_times(7).save_overruns(),
        v.editing_selected().tabbed_times(7).confirmed().profiles == v.profiles,
        v.editing_selected().tabbed_times(7).confirmed().mode == Mode::List,
        v.editing_selected().tabbed_times(7).confirmed().error is None,
{
    let p = v.profiles[v.selected];
    let e = v.editing_selected();
    lemma_game_round_trip(p.game_code);
    lemma_tabbed_times(e, 7);
    let t = e.tabbed_times(7);
    assert(t.field_idx == fields_len(t.f_use_lich) - 1);
    assert(t.current_field() == field_at(fields_len(t.f_use_lich) - 1));
    assert(!t.fetch_wanted());
    let port = match p.lich_port {
        Some(x) => x,
        None => 8000u16,
    };
    lemma_parse_decimal(port as nat, u16::MAX as nat);
    let s = PickerView { needs_fetch: false, ..t };
    assert(s.form_profile() == p);
    assert(v.profiles.update(v.selected, p) =~= v.profiles);
}

/// On the Game field, Right then Left (or Left then Right) shows the game
/// one started from.
pub proof fn lemma_game_cycle(v: PickerView)
    requires
        v.wf(),
        v.mode == Mode::Edit,
        v.current_field() == EditField::Game,
    ensures
        v.game_cycled(true).game_cycled(false) == v,
        v.game_cycled(false).game_cycled(true) == v,
{
}

/// In the list, Down then Up returns to the profile one started on, unless
/// it was the last one.
pub proof fn lemma_list_down_then_up(v: PickerView)
    requires
        v.wf(),
        v.mode == Mode::List,
        v.selected + 1 < v.profiles.len(),
    ensures
        v.moved_down().moved_up() == v,
{
}

/// Saving a complete form for a new profile appends it after the profiles
/// already there, which stay as they were, and selects it; so Enter in the
/// list right after connects with the new profile.
pub proof fn lemma_new_profile_is_selected(v: PickerView)
    requires
        v.wf(),
        v.mode == Mode::Edit,
        v.edit_idx is None,
        v.f_name.len() > 0,
        v.f_account.len() > 0,
        v.f_character.len() > 0,
    ensures
        ({
            let w = v.saved();
            &&& w.mode == Mode::List
            &&& w.profiles.len() == v.profiles.len() + 1
            &&& forall|k: int| 0 <= k < v.profiles.len() ==> #[trigger] w.profiles[k] == v.profiles[k]
            &&& w.selected == w.profiles.len() - 1
            &&& w.profiles[w.selected].name == v.f_name
            &&& w.profiles[w.selected].account == v.f_account
            &&& w.profiles[w.selected].character == v.f_character
            &&& w.wf()
            &&& w.confirmed().result == Some(ResultView::Connect(w.profiles[w.selected]))
            &&& (w.confirmed().result matches Some(ResultView::Connect(c)) && c.name == v.f_name
                && c.character == v.f_character)
        }),
{
}

/// When the characters of an account arrive and the Character field is
/// empty, it gets the first character of the list; a Character field
/// already filled in keeps what it holds. Either way the list is kept for
/// choosing and no fetch is pending any more.
pub proof fn lemma_first_character_fills_field(v: PickerView, chars: Seq<Seq<char>>)
    ensures
        chars.len() > 0 && v.f_character.len() == 0 ==> v.with_characters(chars).f_character == chars[0],
        v.f_character.len() > 0 ==> v.with_characters(chars).f_character == v.f_character,
        chars.len() == 0 ==> v.with_characters(chars).f_character == v.f_character,
        v.with_characters(chars).characters == chars,
        !v.with_characters(chars).needs_fetch,
        v.with_characters(chars).profiles == v.profiles,
        v.with_characters(chars).mode == v.mode,
{
}

// ─── The form as shown ─────────────────────────────────────────────────────

/// A row of the profile form: its label, what it shows, its field, and
/// whether it has the focus.
#[derive(Debug)]
pub struct EditRow {
    pub label: &'static str,
    pub value: String,
    pub field: EditField,
    pub active: bool,
}

/// The label of a field's row.
pub open spec fn row_label(f: EditField) -> Seq<char> {
    match f {
        EditField::Name => "Profile Name"@,
        EditField::Account => "Account"@,
        EditField::Password => "Password"@,
        EditField::Game => "Game"@,
        EditField::Character => "Character"@,
        EditField::UseLich => "Use Lich"@,
        EditField::LichHost => "Lich Host"@,
        EditField::LichPort => "Lich Port"@,
    }
}

impl PickerView {
    /// What a field's row shows: the password as one `●` per byte, the game as
    /// `< code >  name`, a hint on an empty Character field.
    pub open spec fn row_value(self, f: EditField) -> Seq<char> {
        match f {
            EditField::Name => self.f_name,
            EditField::Account => self.f_account,
            EditField::Password => Seq::new(
                (vstd::utf8::encode_utf8(self.f_password).len() as usize) as nat,
                |i: int| '●',
            ),
            EditField::Game => "< "@ + game_code_text(self.f_game_idx) + " >  "@ + game_name_text(
                self.f_game_idx,
            ),
            EditField::Character => if self.f_character.len() == 0 {
                "[Enter to fetch]"@
            } else {
                self.f_character
            },
            EditField::UseLich => if self.f_use_lich {
                "Yes"@
            } else {
                "No"@
            },
            EditField::LichHost => self.f_lich_host,
            EditField::LichPort => self.f_lich_port,
        }
    }
}

// ─── The picker ─────────────────────────────────────────────────────────────

/// The character picker.
pub struct ProfilePicker {
    pub result: Option<PickerResult>,
    profiles: Vec<Profile>,
    selected: usize,
    mode: Mode,
    edit_idx: Option<usize>,
    field_idx: usize,
    f_name: String,
    f_account: String,
    f_password: String,
    f_game_idx: usize,
    f_character: String,
    f_use_lich: bool,
    f_lich_host: String,
    f_lich_port: String,
    pub characters: Vec<String>,
    pub needs_fetch: bool,
    error: Option<String>,
}

/// The contents of a list of strings.
pub open spec fn strings_view(s: Seq<String>) -> Seq<Seq<char>> {
    s.map_values(|x: String| x@)
}

impl View for ProfilePicker {
    type V = PickerView;

    closed spec fn view(&self) -> PickerView {
        PickerView {
            result: result_view(self.result),
            profiles: profile_views(self.profiles@),
            selected: self.selected as int,
            mode: self.mode,
            edit_idx: match self.edit_idx {
                Some(i) => Some(i as int),
                None => None,
            },
            field_idx: self.field_idx as int,
            f_name: self.f_name@,
            f_account: self.f_account@,
            f_password: self.f_password@,
            f_game_idx: self.f_game_idx as int,
            f_character: self.f_character@,
            f_use_lich: self.f_use_lich,
            f_lich_host: self.f_lich_host@,
            f_lich_port: self.f_lich_port@,
            characters: strings_view(self.characters@),
            needs_fetch: self.needs_fetch,
            error: opt_view(self.error),
        }
    }
}

/// The field at position `i`.
fn field_at_exec(i: usize) -> (f: EditField)
    ensures
        f == field_at(i as int),
{
    if i == 0 {
        EditField::Name
    } else if i == 1 {
        EditField::Account
    } else if i == 2 {
        EditField::Password
    } else if i == 3 {
        EditField::Game
    } else if i == 4 {
        EditField::Character
    } else if i == 5 {
        EditField::UseLich
    } else if i == 6 {
        EditField::LichHost
    } else {
        EditField::LichPort
    }
}

impl ProfilePicker {
    /// A picker listing `profiles`, with the first one selected.
    pub fn new(profiles: Vec<Profile>) -> (p: Self)
        ensures
            p@.wf(),
            p@ == (PickerView {
                result: None,
                profiles: profile_views(profiles@),
                selected: 0,
                mode: Mode::List,
                edit_idx: None,
                field_idx: 0,
                f_name: Seq::empty(),
                f_account: Seq::empty(),
                f_password: Seq::empty(),
                f_game_idx: 0,
                f_character: Seq::empty(),
                f_use_lich: false,
                f_lich_host: "127.0.0.1"@,
                f_lich_port: "8000"@,
                characters: Seq::empty(),
                needs_fetch: false,
                error: None,
            }),
    {
        let p = ProfilePicker {
            result: None,
            profiles,
            selected: 0,
            mode: Mode::List,
            edit_idx: None,
            field_idx: 0,
            f_name: String::new(),
            f_account: String::new(),
            f_password: String::new(),
            f_game_idx: 0,
            f_character: String::new(),
            f_use_lich: false,
            f_lich_host: owned("127.0.0.1"),
            f_lich_port: owned("8000"),
            characters: Vec::new(),
            needs_fetch: false,
            error: None,
        };
        assert(strings_view(p.characters@) =~= Seq::<Seq<char>>::empty());
        p
    }

    /// How many fields the form shows now.
    fn fields_count(&self) -> (n: usize)
        ensures
            n as int == fields_len(self.f_use_lich),
    {
        if self.f_use_lich {
            8
        } else {
            6
        }
    }

    /// The field that has the focus.
    fn current_field(&self) -> (f: EditField)
        ensures
            f == self@.current_field(),
    {
        let n = self.fields_count();
        let last = n - 1;
        let i = if self.field_idx < last {
            self.field_idx
        } else {
            last
        };
        field_at_exec(i)
    }

    pub fn is_list_mode(&self) -> (b: bool)
        ensures
            b == (self@.mode == Mode::List),
    {
        self.mode == Mode::List
    }

    /// Types `c` into the focused field of the form.
    pub fn type_char(&mut self, c: char)
        requires
            old(self)@.wf(),
        ensures
            final(self)@ == old(self)@.typed(c),
            final(self)@.wf(),
    {
        if self.mode == Mode::List {
            return;
        }
        match self.current_field() {
            EditField::Name => push_char(&mut self.f_name, c),
            EditField::Account => push_char(&mut self.f_account, c),
            EditField::Password => push_char(&mut self.f_password, c),
            EditField::Character => push_char(&mut self.f_character, c),
            EditField::LichHost => push_char(&mut self.f_lich_host, c),
            EditField::LichPort => {
                if '0' <= c && c <= '9' {
                    push_char(&mut self.f_lich_port, c);
                }
            },
            EditField::Game | EditField::UseLich => {},
        }
    }

    /// Deletes the last character of the focused field of the form.
    pub fn backspace(&mut self)
        requires
            old(self)@.wf(),
        ensures
            final(self)@ == old(self)@.backspaced(),
            final(self)@.wf(),
    {
        if self.mode == Mode::List {
            return;
        }
        match self.current_field() {
            EditField::Name => {
                pop_char(&mut self.f_name);
            },
            EditField::Account => {
                pop_char(&mut self.f_account);
            },
            EditField::Password => {
                pop_char(&mut self.f_password);
            },
            EditField::Character => {
                pop_char(&mut self.f_character);
            },
            EditField::LichHost => {
                pop_char(&mut self.f_lich_host);
            },
            EditField::LichPort => {
                pop_char(&mut self.f_lich_port);
            },
            EditField::Game | EditField::UseLich => {},
        }
    }

    /// Up: moves the selection, or the focus in the form.
    pub fn move_up(&mut self)
        requires
            old(self)@.wf(),
        ensures
            final(self)@ == old(self)@.moved_up(),
            final(self)@.wf(),
    {
        match self.mode {
            Mode::List => {
                if self.selected > 0 {
                    self.selected = self.selected - 1;
                }
            },
            Mode::Edit => {
                if self.field_idx > 0 {
                    self.field_idx = self.field_idx - 1;
                }
                if self.current_field() == EditField::UseLich {
                    self.f_use_lich = !self.f_use_lich;
                }
            },
        }
    }

    /// Down: moves the selection, or the focus in the form.
    pub fn move_down(&mut self)
        requires
            old(self)@.wf(),
        ensures
            final(self)@ == old(self)@.moved_down(),
            final(self)@.wf(),
    {
        match self.mode {
            Mode::List => {
                if self.profiles.len() > 0 && self.selected < self.profiles.len() - 1 {
                    self.selected = self.selected + 1;
                }
            },
            Mode::Edit => {
                let max = self.fields_count() - 1;
                if self.field_idx < max {
                    self.field_idx = self.field_idx + 1;
                }
                if self.current_field() == EditField::UseLich {
                    self.f_use_lich = !self.f_use_lich;
                }
            },
        }
    }

    /// Left/Right on the Game field: shows the previous or next game.
    pub fn cycle_game(&mut self, forward: bool)
        requires
            old(self)@.wf(),
        ensures
            final(self)@ == old(self)@.game_cycled(forward),
            final(self)@.wf(),
    {
        if self.mode == Mode::Edit && self.current_field() == EditField::Game {
            if forward {
                self.f_game_idx = (self.f_game_idx + 1) % GAME_COUNT;
            } else if self.f_game_idx > 0 {
                self.f_game_idx = self.f_game_idx - 1;
            } else {
                self.f_game_idx = GAME_COUNT - 1;
            }
        }
    }

    /// Tab: moves the focus to the next field of the form.
    pub fn tab(&mut self)
        requires
            old(self)@.wf(),
        ensures
            final(self)@ == old(self)@.tabbed(),
            final(self)@.wf(),
    {
        if self.mode == Mode::Edit {
            let max = self.fields_count() - 1;
            if self.field_idx < max {
                self.field_idx = self.field_idx + 1;
            }
        }
    }

    /// Enter. Returns whether the account's characters should be fetched now.
    pub fn confirm(&mut self) -> (fetch: bool)
        requires
            old(self)@.wf(),
            !(old(self)@.confirm_saves() && old(self)@.save_overruns()),
        ensures
            final(self)@ == old(self)@.confirmed(),
            final(self)@.wf(),
            fetch == old(self)@.fetch_wanted(),
    {
        self.needs_fetch = false;
        match self.mode {
            Mode::List => {
                if self.profiles.len() == 0 {
                    return false;
                }
                let p = self.profiles[self.selected].clone();
                self.result = Some(PickerResult::Connect(p));
                false
            },
            Mode::Edit => {
                if self.current_field() == EditField::Character && self.f_character.as_str().is_empty()
                    && !self.f_account.as_str().is_empty() && !self.f_password.as_str().is_empty() {
                    self.needs_fetch = true;
                    return true;
                }
                let last = self.fields_count() - 1;
                if self.field_idx == last {
                    self.save_edit();
                    return false;
                }
                self.field_idx = self.field_idx + 1;
                false
            },
        }
    }

    /// The profile that the form describes.
    fn form_profile(&self) -> (p: Profile)
        requires
            self@.wf(),
        ensures
            p@ == self@.form_profile(),
    {
        let lich_host = if self.f_use_lich && !self.f_lich_host.as_str().is_empty() {
            Some(self.f_lich_host.clone())
        } else {
            None
        };
        let lich_port = if self.f_use_lich {
            parse_u16(self.f_lich_port.as_str())
        } else {
            None
        };
        Profile {
            name: self.f_name.clone(),
            account: self.f_account.clone(),
            character: self.f_character.clone(),
            game_code: owned(game_code(self.f_game_idx)),
            use_lich: self.f_use_lich,
            lich_host,
            lich_port,
        }
    }

    /// Saves the form into the list of profiles.
    fn save_edit(&mut self)
        requires
            old(self)@.wf(),
            !old(self)@.save_overruns(),
        ensures
            final(self)@ == old(self)@.saved(),
            final(self)@.wf(),
    {
        if self.f_name.as_str().is_empty() || self.f_account.as_str().is_empty()
            || self.f_character.as_str().is_empty() {
            self.error = Some(owned("Name, account, and character are required."));
            return;
        }
        let profile = self.form_profile();
        let ghost pv = profile@;
        match self.edit_idx {
            Some(idx) => {
                self.profiles.set(idx, profile);
                proof {
                    assert(profile_views(self.profiles@) =~= profile_views(old(self).profiles@).update(
                        idx as int,
                        pv,
                    ));
                }
            },
            None => {
                self.profiles.push(profile);
                self.selected = self.profiles.len() - 1;
                proof {
                    assert(profile_views(self.profiles@) =~= profile_views(old(self).profiles@).push(
                        pv,
                    ));
                }
            },
        }
        self.mode = Mode::List;
        self.error = None;
    }

    /// Esc: closes the form, or quits from the list.
    pub fn back(&mut self)
        requires
            old(self)@.wf(),
        ensures
            final(self)@ == old(self)@.went_back(),
            final(self)@.wf(),
    {
        match self.mode {
            Mode::Edit => {
                self.mode = Mode::List;
                self.error = None;
            },
            Mode::List => {
                self.result = Some(PickerResult::Quit);
            },
        }
    }

    /// Opens an empty form for a new profile.
    pub fn new_profile(&mut self)
        requires
            old(self)@.wf(),
        ensures
            final(self)@ == old(self)@.started_new(),
            final(self)@.wf(),
    {
        self.edit_idx = None;
        self.field_idx = 0;
        self.f_name = String::new();
        self.f_account = String::new();
        self.f_password = String::new();
        self.f_game_idx = 0;
        self.f_character = String::new();
        self.f_use_lich = false;
        self.f_lich_host = owned("127.0.0.1");
        self.f_lich_port = owned("8000");
        self.characters = Vec::new();
        self.error = None;
        self.mode = Mode::Edit;
        assert(strings_view(self.characters@) =~= Seq::<Seq<char>>::empty());
    }

    /// Opens the form on the selected profile.
    pub fn edit_selected(&mut self)
        requires
            old(self)@.wf(),
        ensures
            final(self)@ == old(self)@.editing_selected(),
            final(self)@.wf(),
    {
        if self.profiles.len() == 0 {
            return;
        }
        let p = self.profiles[self.selected].clone();
        self.edit_idx = Some(self.selected);
        self.field_idx = 0;
        self.f_game_idx = game_position(p.game_code.as_str());
        self.f_lich_host = match &p.lich_host {
            Some(h) => h.clone(),
            None => owned("127.0.0.1"),
        };
        self.f_lich_port = decimal_string(p.lich_port() as u64);
        self.f_name = p.name;
        self.f_account = p.account;
        self.f_password = String::new();
        self.f_character = p.character;
        self.f_use_lich = p.use_lich;
        self.characters = Vec::new();
        self.error = None;
        self.mode = Mode::Edit;
        assert(strings_view(self.characters@) =~= Seq::<Seq<char>>::empty());
    }

    /// Deletes the selected profile.
    pub fn delete_selected(&mut self)
        requires
            old(self)@.wf(),
        ensures
            final(self)@ == old(self)@.deleted_selected(),
            final(self)@.wf(),
    {
        if self.profiles.len() == 0 {
            return;
        }
        self.profiles.remove(self.selected);
        if self.selected > 0 && self.selected >= self.profiles.len() {
            self.selected = self.selected - 1;
        }
        assert(profile_views(self.profiles@) =~= profile_views(old(self).profiles@).remove(
            old(self).selected as int,
        ));
    }

    /// Receives the account's characters.
    pub fn set_characters(&mut self, chars: Vec<String>)
        requires
            old(self)@.wf(),
        ensures
            final(self)@ == old(self)@.with_characters(strings_view(chars@)),
            final(self)@.wf(),
    {
        if chars.len() > 0 && self.f_character.as_str().is_empty() {
            self.f_character = chars[0].clone();
        }
        self.characters = chars;
        self.needs_fetch = false;
    }

    /// Receives the error of a failed fetch.
    pub fn set_error(&mut self, msg: String)
        requires
            old(self)@.wf(),
        ensures
            final(self)@ == old(self)@.with_error(msg@),
            final(self)@.wf(),
    {
        self.error = Some(msg);
        self.needs_fetch = false;
    }

    pub fn needs_fetch(&self) -> (b: bool)
        ensures
            b == self@.needs_fetch,
    {
        self.needs_fetch
    }

    /// The account, password and game code to fetch characters with; `None`
    /// until account and password are both given.
    pub fn get_fetch_params(&self) -> (r: Option<(String, String, String)>)
        requires
            self@.wf(),
        ensures
            r is Some <==> (self@.f_account.len() > 0 && self@.f_password.len() > 0),
            r matches Some(t) ==> t.0@ == self@.f_account && t.1@ == self@.f_password && t.2@
                == game_code_text(self@.f_game_idx),
    {
        if self.f_account.as_str().is_empty() || self.f_password.as_str().is_empty() {
            return None;
        }
        Some((self.f_account.clone(), self.f_password.clone(), owned(game_code(self.f_game_idx))))
    }

    /// The title of the form: editing a saved profile or adding one.
    pub fn edit_title(&self) -> (t: &'static str)
        ensures
            t@ == (if self@.edit_idx is Some {
                "Edit Profile"@
            } else {
                "New Profile"@
            }),
    {
        if self.edit_idx.is_some() {
            "Edit Profile"
        } else {
            "New Profile"
        }
    }

    /// The error shown under the form, if any.
    pub fn error(&self) -> (e: Option<&str>)
        ensures
            match e {
                Some(m) => self@.error == Some(m@),
                None => self@.error is None,
            },
    {
        match &self.error {
            Some(m) => Some(m.as_str()),
            None => None,
        }
    }

    /// The value a field's row shows.
    fn row_value(&self, f: EditField) -> (v: String)
        requires
            self@.wf(),
        ensures
            v@ == self@.row_value(f),
    {
        match f {
            EditField::Name => self.f_name.clone(),
            EditField::Account => self.f_account.clone(),
            EditField::Password => {
                let n = self.f_password.as_str().len();
                let mut s = String::new();
                let mut k: usize = 0;
                while k < n
                    invariant
                        k <= n,
                        s@ == Seq::new(k as nat, |i: int| '●'),
                    decreases n - k,
                {
                    push_char(&mut s, '●');
                    assert(Seq::new(k as nat, |i: int| '●').push('●') =~= Seq::new(
                        (k + 1) as nat,
                        |i: int| '●',
                    ));
                    k = k + 1;
                }
                s
            },
            EditField::Game => {
                let mut s = owned("< ");
                s.append(game_code(self.f_game_idx));
                s.append(" >  ");
                s.append(game_name(self.f_game_idx));
                s
            },
            EditField::Character => {
                if self.f_character.as_str().is_empty() {
                    owned("[Enter to fetch]")
                } else {
                    self.f_character.clone()
                }
            },
            EditField::UseLich => {
                if self.f_use_lich {
                    owned("Yes")
                } else {
                    owned("No")
                }
            },
            EditField::LichHost => self.f_lich_host.clone(),
            EditField::LichPort => self.f_lich_port.clone(),
        }
    }

    /// The rows of the form: six fields, and the two Lich fields after them
    /// when the profile uses Lich; the focused field's row is marked active.
    pub fn edit_rows(&self) -> (rows: Vec<EditRow>)
        requires
            self@.wf(),
        ensures
            rows@.len() == fields_len(self@.f_use_lich),
            forall|i: int|
                0 <= i < rows@.len() ==> {
                    &&& (#[trigger] rows@[i]).field == field_at(i)
                    &&& rows@[i].label@ == row_label(field_at(i))
                    &&& rows@[i].value@ == self@.row_value(field_at(i))
                    &&& rows@[i].active == (field_at(i) == self@.current_field())
                },
    {
        let n = self.fields_count();
        let current = self.current_field();
        let mut rows: Vec<EditRow> = Vec::new();
        let mut i: usize = 0;
        while i < n
            invariant
                n as int == fields_len(self@.f_use_lich),
                current == self@.current_field(),
                self@.wf(),
                i <= n,
                rows@.len() == i,
                forall|k: int|
                    0 <= k < i ==> {
                        &&& (#[trigger] rows@[k]).field == field_at(k)
                        &&& rows@[k].label@ == row_label(field_at(k))
                        &&& rows@[k].value@ == self@.row_value(field_at(k))
                        &&& rows@[k].active == (field_at(k) == self@.current_field())
                    },
            decreases n - i,
        {
            let f = field_at_exec(i);
            let label: &'static str = match f {
                EditField::Name => "Profile Name",
                EditField::Account => "Account",
                EditField::Password => "Password",
                EditField::Game => "Game",
                EditField::Character => "Character",
                EditField::UseLich => "Use Lich",
                EditField::LichHost => "Lich Host",
                EditField::LichPort => "Lich Port",
            };
            rows.push(EditRow { label, value: self.row_value(f), field: f, active: f == current });
            i = i + 1;
        }
        rows
    }

    /// The position of the highlighted profile in the list.
    pub fn selected(&self) -> (i: usize)
        ensures
            i as int == self@.selected,
    {
        self.selected
    }

    /// What the picker ended with, if anything.
    pub fn result_ref(&self) -> (r: &Option<PickerResult>)
        ensures
            result_view(*r) == self@.result,
    {
        &self.result
    }

    pub fn profiles(&self) -> (r: &[Profile])
        ensures
            profile_views(r@) == self@.profiles,
    {
        self.profiles.as_slice()
    }
}

} // verus!
