//! What the keys do while the character picker is on screen, and what the
//! picker's result asks of the application.
//!
//! A key changes the picker and may ask for outside work: saving the profile
//! store, or fetching an account's characters. Once the picker has a result,
//! [`wizard_outcome`] says whether to quit or which store to save, which
//! password to keep and which connect command to run.
use vstd::prelude::*;

use crate::connection::{self, ProfileStore, clone_opt_string, upsert};
use crate::login_wizard::{Mode, PickerView, Profile, ProfilePicker, ResultView};
use crate::seq_util::lemma_take_push;
use crate::text::{concat, decimal, push_decimal};

verus! {

broadcast use vstd::string::group_string_axioms;

/// A key, as the picker sees it.
#[derive(Debug, Clone, Copy, PartialEq, Eq)]
pub enum WizardKey {
    Esc,
    Tab,
    Up,
    Down,
    Left,
    Right,
    Backspace,
    Enter,
    Char(char),
    Other,
}

/// Outside work that a key asks for.
#[derive(Debug)]
pub enum WizardEffect {
    Nothing,
    /// Write this store to the profiles file.
    SaveProfiles(ProfileStore),
    /// Log in and fetch the account's characters; hand them to
    /// [`ProfilePicker::set_characters`], or the error to
    /// [`ProfilePicker::set_error`].
    FetchCharacters { account: String, password: String, game_code: String },
}

/// The stored form of a picker profile.
pub open spec fn stored_matches(s: connection::Profile, p: crate::login_wizard::ProfileView) -> bool {
    &&& s.name@ == p.name
    &&& s.account@ == p.account
    &&& s.character@ == p.character
    &&& s.game_code@ == p.game_code
    &&& s.use_lich == p.use_lich
    &&& crate::login_wizard::opt_view(s.lich_host) == p.lich_host
    &&& s.lich_port == p.lich_port
}

/// A stored list matches the picker's list element by element.
pub open spec fn stored_list_matches(s: Seq<connection::Profile>, p: Seq<crate::login_wizard::ProfileView>) -> bool {
    &&& s.len() == p.len()
    &&& forall|i: int| 0 <= i < s.len() ==> stored_matches(#[trigger] s[i], p[i])
}

/// The stored form of a picker profile.
pub fn to_stored(p: &Profile) -> (s: connection::Profile)
    ensures
        stored_matches(s, p@),
{
    connection::Profile {
        name: p.name.clone(),
        account: p.account.clone(),
        character: p.character.clone(),
        game_code: p.game_code.clone(),
        use_lich: p.use_lich,
        lich_host: clone_opt_string(&p.lich_host),
        lich_port: p.lich_port,
    }
}

/// The picker's profiles as a store.
pub fn store_of(profiles: &[Profile]) -> (s: ProfileStore)
    ensures
        stored_list_matches(s.profiles@, crate::login_wizard::profile_views(profiles@)),
{
    let mut out: Vec<connection::Profile> = Vec::new();
    let mut i: usize = 0;
    while i < profiles.len()
        invariant
            i <= profiles@.len(),
            stored_list_matches(out@, crate::login_wizard::profile_views(profiles@.take(i as int))),
        decreases profiles@.len() - i,
    {
        proof {
            lemma_take_push(profiles@, i as int);
        }
        out.push(to_stored(&profiles[i]));
        i = i + 1;
        proof {
            let v = crate::login_wizard::profile_views(profiles@.take(i as int));
            assert forall|k: int| 0 <= k < out@.len() implies stored_matches(#[trigger] out@[k], v[k]) by {
                assert(profiles@.take(i as int)[k] == profiles@[k]);
            }
        }
    }
    assert(profiles@.take(profiles@.len() as int) =~= profiles@);
    ProfileStore { profiles: out }
}

/// The picker after a key.
pub open spec fn after_key(v: PickerView, key: WizardKey) -> PickerView {
    match key {
        WizardKey::Esc => v.went_back(),
        WizardKey::Tab => v.tabbed(),
        WizardKey::Up => v.moved_up(),
        WizardKey::Down => v.moved_down(),
        WizardKey::Left => v.game_cycled(false),
        WizardKey::Right => v.game_cycled(true),
        WizardKey::Backspace => v.backspaced(),
        WizardKey::Enter => v.confirmed(),
        WizardKey::Char(c) => if v.mode == Mode::List && (c == 'n' || c == 'N') {
            v.started_new()
        } else if v.mode == Mode::List && (c == 'e' || c == 'E') {
            v.editing_selected()
        } else if v.mode == Mode::List && (c == 'd' || c == 'D') {
            v.deleted_selected()
        } else {
            v.typed(c)
        },
        WizardKey::Other => v,
    }
}

/// The key is D in the list: the selected profile is deleted and the store is
/// saved.
pub open spec fn deletes(v: PickerView, key: WizardKey) -> bool {
    key matches WizardKey::Char(c) && v.mode == Mode::List && (c == 'd' || c == 'D')
}

/// Enter asks for a fetch and the form has what a fetch needs.
pub open spec fn fetches(v: PickerView, key: WizardKey) -> bool {
    &&& key == WizardKey::Enter
    &&& v.fetch_wanted()
}

/// Keys keep the profile being edited in the list: deleting happens only in
/// the list, so saving a form never writes past the end of the list.
pub proof fn lemma_keys_keep_edit_target(v: PickerView, key: WizardKey)
    requires
        v.wf(),
        v.edit_target_ok(),
    ensures
        after_key(v, key).edit_target_ok(),
        !(key == WizardKey::Enter && v.confirm_saves() && v.save_overruns()),
{
}

/// Handles one key while the picker is on screen. Ctrl and Alt chords do
/// nothing; N, E and D manage profiles in the list and are typed in the form.
pub fn handle_wizard_key(picker: &mut ProfilePicker, key: WizardKey, ctrl: bool, alt: bool) -> (effect: WizardEffect)
    requires
        old(picker)@.wf(),
        old(picker)@.edit_target_ok(),
    ensures
        final(picker)@.wf(),
        final(picker)@.edit_target_ok(),
        (ctrl || alt) && key is Char ==> final(picker)@ == old(picker)@ && effect is Nothing,
        !((ctrl || alt) && key is Char) ==> final(picker)@ == after_key(old(picker)@, key),
        match effect {
            WizardEffect::Nothing => !(!((ctrl || alt) && key is Char) && (deletes(old(picker)@, key)
                || fetches(old(picker)@, key))),
            WizardEffect::SaveProfiles(store) => !(ctrl || alt) && deletes(old(picker)@, key)
                && stored_list_matches(store.profiles@, final(picker)@.profiles),
            WizardEffect::FetchCharacters { account, password, game_code } => {
                &&& fetches(old(picker)@, key)
                &&& account@ == final(picker)@.f_account
                &&& password@ == final(picker)@.f_password
                &&& game_code@ == crate::login_wizard::game_code_text(final(picker)@.f_game_idx)
            },
        },
{
    proof {
        lemma_keys_keep_edit_target(old(picker)@, key);
    }
    match key {
        WizardKey::Esc => {
            picker.back();
            WizardEffect::Nothing
        },
        WizardKey::Tab => {
            picker.tab();
            WizardEffect::Nothing
        },
        WizardKey::Up => {
            picker.move_up();
            WizardEffect::Nothing
        },
        WizardKey::Down => {
            picker.move_down();
            WizardEffect::Nothing
        },
        WizardKey::Left => {
            picker.cycle_game(false);
            WizardEffect::Nothing
        },
        WizardKey::Right => {
            picker.cycle_game(true);
            WizardEffect::Nothing
        },
        WizardKey::Backspace => {
            picker.backspace();
            WizardEffect::Nothing
        },
        WizardKey::Char(c) => {
            if ctrl || alt {
                return WizardEffect::Nothing;
            }
            let list = picker.is_list_mode();
            if list && (c == 'n' || c == 'N') {
                picker.new_profile();
                WizardEffect::Nothing
            } else if list && (c == 'e' || c == 'E') {
                picker.edit_selected();
                WizardEffect::Nothing
            } else if list && (c == 'd' || c == 'D') {
                picker.delete_selected();
                WizardEffect::SaveProfiles(store_of(picker.profiles()))
            } else {
                picker.type_char(c);
                WizardEffect::Nothing
            }
        },
        WizardKey::Enter => {
            let fetch = picker.confirm();
            if fetch {
                match picker.get_fetch_params() {
                    Some((account, password, game_code)) => WizardEffect::FetchCharacters {
                        account,
                        password,
                        game_code,
                    },
                    None => WizardEffect::Nothing,
                }
            } else {
                WizardEffect::Nothing
            }
        },
        WizardKey::Other => WizardEffect::Nothing,
    }
}

/// What the application does once the picker has a result.
#[derive(Debug)]
pub enum WizardOutcome {
    /// No result yet: the picker stays.
    Stay,
    /// Close the picker and quit.
    Quit,
    /// Close the picker, save `store`, keep the password of `credential`
    /// (account, password) in the keychain when there is one, and run the
    /// connect command `command`.
    Connect { store: ProfileStore, credential: Option<(String, String)>, command: String },
}

/// The prefix of the command that connects through a Lich proxy.
pub open spec fn lich_connect_prefix() -> Seq<char> {
    "//setup:connect:lich:"@
}

/// The prefix of the command that connects directly.
pub open spec fn direct_connect_prefix() -> Seq<char> {
    "//setup:connect:direct:"@
}

/// The connect command for a profile: through Lich to its host and port, or
/// directly with its account, game code and character.
pub open spec fn connect_command_text(p: crate::login_wizard::ProfileView) -> Seq<char> {
    if p.use_lich {
        lich_connect_prefix() + (match p.lich_host {
            Some(h) => h,
            None => "127.0.0.1"@,
        }) + ":"@ + decimal(
            (match p.lich_port {
                Some(x) => x,
                None => 8000u16,
            }) as nat,
        )
    } else {
        direct_connect_prefix() + p.account + ":"@ + p.game_code + ":"@ + p.character
    }
}

/// The connect command for a profile.
pub fn connect_command(p: &Profile) -> (c: String)
    ensures
        c@ == connect_command_text(p@),
{
    if p.use_lich {
        let mut c = concat("//setup:connect:lich:", p.lich_host());
        c.append(":");
        push_decimal(&mut c, p.lich_port() as u64);
        c
    } else {
        let mut c = concat("//setup:connect:direct:", p.account.as_str());
        c.append(":");
        c.append(p.game_code.as_str());
        c.append(":");
        c.append(p.character.as_str());
        c
    }
}

/// What the picker's result asks for. For a connection, the store is the
/// picker's profiles with the chosen one saved into them, and the credential
/// is the form's account and password when both are given.
pub fn wizard_outcome(picker: &ProfilePicker) -> (o: WizardOutcome)
    requires
        picker@.wf(),
    ensures
        match picker@.result {
            None => o is Stay,
            Some(ResultView::Quit) => o is Quit,
            Some(ResultView::Connect(p)) => match o {
                WizardOutcome::Connect { store, credential, command } => {
                    &&& command@ == connect_command_text(p)
                    &&& store.profiles@.len() > 0
                    &&& exists|base: Seq<connection::Profile>, chosen: connection::Profile|
                        {
                            &&& stored_list_matches(base, picker@.profiles)
                            &&& stored_matches(chosen, p)
                            &&& store.profiles@ == upsert(base, chosen)
                        }
                    &&& (credential is Some <==> (picker@.f_account.len() > 0
                        && picker@.f_password.len() > 0))
                    &&& credential matches Some(c) ==> c.0@ == picker@.f_account && c.1@
                        == picker@.f_password
                },
                _ => false,
            },
        },
{
    match picker.result_ref() {
        None => WizardOutcome::Stay,
        Some(crate::login_wizard::PickerResult::Quit) => WizardOutcome::Quit,
        Some(crate::login_wizard::PickerResult::Connect(profile)) => {
            let chosen = to_stored(profile);
            let mut store = store_of(picker.profiles());
            let ghost base = store.profiles@;
            store.add_or_update(chosen);
            proof {
                connection::lemma_upsert_contains(base, chosen);
            }
            let credential = match picker.get_fetch_params() {
                Some((account, password, _)) => Some((account, password)),
                None => None,
            };
            WizardOutcome::Connect { store, credential, command: connect_command(profile) }
        },
    }
}

} // verus!
