//! The session picker: a list of configured sessions with an "Add" row below
//! them, and an inline form that adds a Lich session.
use vstd::prelude::*;

use vstd::arithmetic::div_mod::{lemma_add_mod_noop, lemma_mod_add_multiples_vanish, lemma_mod_bound, lemma_mod_self_0, lemma_small_mod};
use crate::sessions_config::{SessionEntry, SessionModeConfig, SessionsConfig, clone_entries};
use crate::text::{is_digit, owned, parse_u16, parse_unsigned, pop_char, pop_last, push_char, trim, trim_owned};

verus! {

broadcast use vstd::string::group_string_axioms;

/// Which element has keyboard focus in the picker.
#[derive(Debug, Clone, Copy, PartialEq, Eq, Structural)]
pub enum PickerFocus {
    /// Navigating the session list (index into sessions + "Add" row)
    List,
    /// Filling in the add-session form
    Form,
}

/// Which field in the add-session form is focused.
#[derive(Debug, Clone, Copy, PartialEq, Eq, Structural)]
pub enum FormField {
    Label,
    Host,
    Port,
}

/// The field after `f`, cycling Label, Host, Port; no field goes to Label.
pub open spec fn field_after(f: Option<FormField>) -> Option<FormField> {
    match f {
        Some(FormField::Label) => Some(FormField::Host),
        Some(FormField::Host) => Some(FormField::Port),
        _ => Some(FormField::Label),
    }
}

/// The field before `f`, cycling Label, Port, Host; no field goes to Host.
pub open spec fn field_before(f: Option<FormField>) -> Option<FormField> {
    match f {
        Some(FormField::Label) => Some(FormField::Port),
        Some(FormField::Host) => Some(FormField::Label),
        _ => Some(FormField::Host),
    }
}

/// Moving to the next field and back, or back and then forward, returns to
/// the field one started on; three steps forward come round to it too.
pub proof fn lemma_field_cycle(f: FormField)
    ensures
        field_before(field_after(Some(f))) == Some(f),
        field_after(field_before(Some(f))) == Some(f),
        field_after(field_after(field_after(Some(f)))) == Some(f),
{
}

/// State for the add-session form.
#[derive(Debug)]
pub struct AddForm {
    pub label: String,
    pub host: String,
    pub port: String,
    pub focused_field: Option<FormField>,
    /// true = Lich, false = Direct
    pub lich_mode: bool,
}

/// The contents of an [`AddForm`].
pub struct AddFormView {
    pub label: Seq<char>,
    pub host: Seq<char>,
    pub port: Seq<char>,
    pub focused_field: Option<FormField>,
    pub lich_mode: bool,
}

impl View for AddForm {
    type V = AddFormView;

    open spec fn view(&self) -> AddFormView {
        AddFormView {
            label: self.label@,
            host: self.host@,
            port: self.port@,
            focused_field: self.focused_field,
            lich_mode: self.lich_mode,
        }
    }
}

impl Clone for AddForm {
    fn clone(&self) -> (r: Self)
        ensures
            r == *self,
    {
        AddForm {
            label: self.label.clone(),
            host: self.host.clone(),
            port: self.port.clone(),
            focused_field: self.focused_field,
            lich_mode: self.lich_mode,
        }
    }
}

impl Default for AddForm {
    fn default() -> (r: Self)
        ensures
            r@ == (AddFormView {
                label: Seq::empty(),
                host: Seq::empty(),
                port: Seq::empty(),
                focused_field: None,
                lich_mode: false,
            }),
    {
        AddForm {
            label: String::new(),
            host: String::new(),
            port: String::new(),
            focused_field: None,
            lich_mode: false,
        }
    }
}

/// The contents of a [`SessionEntry`].
pub struct EntryView {
    pub label: Seq<char>,
    pub mode: SessionModeConfig,
    pub host: Option<Seq<char>>,
    pub port: Option<u16>,
    pub account: Option<Seq<char>>,
    pub character: Option<Seq<char>>,
    pub game_code: Option<Seq<char>>,
    pub auto_connect: bool,
}

/// The contents of an optional string.
pub open spec fn opt_chars(s: Option<String>) -> Option<Seq<char>> {
    match s {
        Some(x) => Some(x@),
        None => None,
    }
}

/// The contents of a session entry.
pub open spec fn entry_view(e: SessionEntry) -> EntryView {
    EntryView {
        label: e.label@,
        mode: e.mode,
        host: opt_chars(e.host),
        port: e.port,
        account: opt_chars(e.account),
        character: opt_chars(e.character),
        game_code: opt_chars(e.game_code),
        auto_connect: e.auto_connect,
    }
}

impl AddFormView {
    /// After typing `c`: it goes at the end of the focused field; the port
    /// takes digits only.
    pub open spec fn typed(self, c: char) -> AddFormView {
        match self.focused_field {
            Some(FormField::Label) => AddFormView { label: self.label.push(c), ..self },
            Some(FormField::Host) => AddFormView { host: self.host.push(c), ..self },
            Some(FormField::Port) => if is_digit(c) {
                AddFormView { port: self.port.push(c), ..self }
            } else {
                self
            },
            None => self,
        }
    }

    /// After Backspace: the focused field loses its last character.
    pub open spec fn backspaced(self) -> AddFormView {
        match self.focused_field {
            Some(FormField::Label) => AddFormView { label: pop_last(self.label), ..self },
            Some(FormField::Host) => AddFormView { host: pop_last(self.host), ..self },
            Some(FormField::Port) => AddFormView { port: pop_last(self.port), ..self },
            None => self,
        }
    }

    /// The entry that the form describes, if it has a label and a port: a
    /// Lich session with the trimmed label, host and port.
    pub open spec fn entry(self) -> Option<EntryView> {
        let label = trim(self.label);
        if label.len() == 0 {
            None
        } else {
            match parse_unsigned(trim(self.port), u16::MAX as nat) {
                Some(port) => Some(
                    EntryView {
                        label,
                        mode: SessionModeConfig::Lich,
                        host: Some(trim(self.host)),
                        port: Some(port as u16),
                        account: None,
                        character: None,
                        game_code: None,
                        auto_connect: false,
                    },
                ),
                None => None,
            }
        }
    }
}

impl AddForm {
    /// A form for a Lich session at localhost:8000, with the label focused.
    pub fn new() -> (f: Self)
        ensures
            f@ == (AddFormView {
                label: Seq::empty(),
                host: "localhost"@,
                port: "8000"@,
                focused_field: Some(FormField::Label),
                lich_mode: true,
            }),
    {
        AddForm {
            label: String::new(),
            host: owned("localhost"),
            port: owned("8000"),
            focused_field: Some(FormField::Label),
            lich_mode: true,
        }
    }

    pub fn focused_field(&self) -> (r: &Option<FormField>)
        ensures
            *r == self.focused_field,
    {
        &self.focused_field
    }

    pub fn type_char(&mut self, c: char)
        ensures
            final(self)@ == old(self)@.typed(c),
    {
        match &self.focused_field {
            Some(FormField::Label) => push_char(&mut self.label, c),
            Some(FormField::Host) => push_char(&mut self.host, c),
            Some(FormField::Port) => {
                if '0' <= c && c <= '9' {
                    push_char(&mut self.port, c);
                }
            },
            None => {},
        }
    }

    pub fn backspace(&mut self)
        ensures
            final(self)@ == old(self)@.backspaced(),
    {
        match &self.focused_field {
            Some(FormField::Label) => {
                pop_char(&mut self.label);
            },
            Some(FormField::Host) => {
                pop_char(&mut self.host);
            },
            Some(FormField::Port) => {
                pop_char(&mut self.port);
            },
            None => {},
        }
    }

    pub fn next_field(&mut self)
        ensures
            final(self)@ == (AddFormView { focused_field: field_after(old(self).focused_field), ..old(self)@ }),
    {
        self.focused_field = match &self.focused_field {
            Some(FormField::Label) => Some(FormField::Host),
            Some(FormField::Host) => Some(FormField::Port),
            Some(FormField::Port) | None => Some(FormField::Label),
        };
    }

    pub fn prev_field(&mut self)
        ensures
            final(self)@ == (AddFormView { focused_field: field_before(old(self).focused_field), ..old(self)@ }),
    {
        self.focused_field = match &self.focused_field {
            Some(FormField::Label) => Some(FormField::Port),
            Some(FormField::Host) => Some(FormField::Label),
            Some(FormField::Port) | None => Some(FormField::Host),
        };
    }

    /// The session entry the form describes; `None` without a label or with a
    /// port that is not a `u16`.
    pub fn to_entry(&self) -> (r: Option<SessionEntry>)
        ensures
            match r {
                Some(e) => self@.entry() == Some(entry_view(e)),
                None => self@.entry() is None,
            },
    {
        let label = trim_owned(self.label.as_str());
        if label.as_str().is_empty() {
            return None;
        }
        let port_text = trim_owned(self.port.as_str());
        let port = match parse_u16(port_text.as_str()) {
            Some(p) => p,
            None => return None,
        };
        Some(
            SessionEntry {
                label,
                mode: SessionModeConfig::Lich,
                host: Some(trim_owned(self.host.as_str())),
                port: Some(port),
                account: None,
                character: None,
                game_code: None,
                auto_connect: false,
            },
        )
    }
}

/// Actions the picker asks of the runtime.
#[derive(Debug)]
pub enum PickerAction {
    /// Connect to the session at this index in the list
    Connect(usize),
    /// Remove the session at this index
    Remove(usize),
    /// Save a new Lich session entry
    AddSession(SessionEntry),
    /// Open the Direct login wizard
    OpenWizard,
    /// Escape with no sessions: quit
    Quit,
}

impl Clone for PickerAction {
    fn clone(&self) -> (r: Self)
        ensures
            r == *self,
    {
        match self {
            PickerAction::Connect(i) => PickerAction::Connect(*i),
            PickerAction::Remove(i) => PickerAction::Remove(*i),
            PickerAction::AddSession(e) => PickerAction::AddSession(e.clone()),
            PickerAction::OpenWizard => PickerAction::OpenWizard,
            PickerAction::Quit => PickerAction::Quit,
        }
    }
}

/// The contents of a [`PickerAction`].
pub enum ActionView {
    Connect(usize),
    Remove(usize),
    AddSession(EntryView),
    OpenWizard,
    Quit,
}

/// The contents of an optional action.
pub open spec fn action_view(a: Option<PickerAction>) -> Option<ActionView> {
    match a {
        Some(PickerAction::Connect(i)) => Some(ActionView::Connect(i)),
        Some(PickerAction::Remove(i)) => Some(ActionView::Remove(i)),
        Some(PickerAction::AddSession(e)) => Some(ActionView::AddSession(entry_view(e))),
        Some(PickerAction::OpenWizard) => Some(ActionView::OpenWizard),
        Some(PickerAction::Quit) => Some(ActionView::Quit),
        None => None,
    }
}

/// The contents of an optional form.
pub open spec fn form_view(f: Option<AddForm>) -> Option<AddFormView> {
    match f {
        Some(x) => Some(x@),
        None => None,
    }
}

/// The session picker screen state.
pub struct SessionPicker {
    /// Loaded session list (mirrors SessionsConfig)
    pub sessions: Vec<SessionEntry>,
    /// Currently highlighted row (0..sessions.len() = session, sessions.len() = "Add" row)
    pub selected: usize,
    pub focus: PickerFocus,
    pub form: Option<AddForm>,
    /// Action requested by the picker (consumed by runtime)
    pub action: Option<PickerAction>,
}

/// The contents of a [`SessionPicker`].
pub struct SessionPickerView {
    pub sessions: Seq<SessionEntry>,
    pub selected: int,
    pub focus: PickerFocus,
    pub form: Option<AddFormView>,
    pub action: Option<ActionView>,
}

impl View for SessionPicker {
    type V = SessionPickerView;

    open spec fn view(&self) -> SessionPickerView {
        SessionPickerView {
            sessions: self.sessions@,
            selected: self.selected as int,
            focus: self.focus,
            form: form_view(self.form),
            action: action_view(self.action),
        }
    }
}

impl SessionPickerView {
    /// The number of rows: the sessions and the "Add" row.
    pub open spec fn rows(self) -> int {
        self.sessions.len() + 1int
    }

    /// The form changed by `f`, when there is one.
    pub open spec fn with_form(self, f: spec_fn(AddFormView) -> AddFormView) -> SessionPickerView {
        match self.form {
            Some(x) => SessionPickerView { form: Some(f(x)), ..self },
            None => self,
        }
    }

    /// After Up: the highlight moves up, wrapping to the "Add" row; in the
    /// form the previous field gets the focus.
    pub open spec fn moved_up(self) -> SessionPickerView {
        if self.focus == PickerFocus::List {
            SessionPickerView {
                selected: (self.selected + self.rows() - 1) % self.rows(),
                ..self
            }
        } else {
            self.with_form(
                |x: AddFormView| AddFormView { focused_field: field_before(x.focused_field), ..x },
            )
        }
    }

    /// After Down: the highlight moves down, wrapping to the first row; in
    /// the form the next field gets the focus.
    pub open spec fn moved_down(self) -> SessionPickerView {
        if self.focus == PickerFocus::List {
            SessionPickerView { selected: (self.selected + 1) % self.rows(), ..self }
        } else {
            self.with_form(
                |x: AddFormView| AddFormView { focused_field: field_after(x.focused_field), ..x },
            )
        }
    }

    /// After Enter: a Lich form with a valid entry asks to add it; a Direct
    /// form asks for the login wizard; on the "Add" row the form opens; on a
    /// session the picker asks to connect to it.
    pub open spec fn confirmed(self) -> SessionPickerView {
        if self.focus == PickerFocus::Form {
            match self.form {
                Some(f) => if f.lich_mode {
                    match f.entry() {
                        Some(e) => SessionPickerView {
                            action: Some(ActionView::AddSession(e)),
                            ..self
                        },
                        None => self,
                    }
                } else {
                    SessionPickerView { action: Some(ActionView::OpenWizard), ..self }
                },
                None => self,
            }
        } else if self.selected == self.sessions.len() {
            SessionPickerView {
                focus: PickerFocus::Form,
                form: Some(
                    AddFormView {
                        label: Seq::empty(),
                        host: "localhost"@,
                        port: "8000"@,
                        focused_field: Some(FormField::Label),
                        lich_mode: true,
                    },
                ),
                ..self
            }
        } else {
            SessionPickerView { action: Some(ActionView::Connect(self.selected as usize)), ..self }
        }
    }
}

/// In the list, moving down and then up returns to the row one started on.
pub proof fn lemma_down_then_up(v: SessionPickerView)
    requires
        v.focus == PickerFocus::List,
        0 <= v.selected < v.rows(),
    ensures
        v.moved_down().moved_up().selected == v.selected,
        v.moved_up().moved_down().selected == v.selected,
{
    let n = v.rows();
    let s = v.selected;
    if s + 1 < n {
        vstd::arithmetic::div_mod::lemma_small_mod((s + 1) as nat, n as nat);
        vstd::arithmetic::div_mod::lemma_mod_add_multiples_vanish(s, n);
        vstd::arithmetic::div_mod::lemma_small_mod(s as nat, n as nat);
    } else {
        vstd::arithmetic::div_mod::lemma_mod_self_0(n);
        vstd::arithmetic::div_mod::lemma_small_mod((n - 1) as nat, n as nat);
    }
    if s > 0 {
        vstd::arithmetic::div_mod::lemma_mod_add_multiples_vanish(s - 1, n);
        vstd::arithmetic::div_mod::lemma_small_mod((s - 1) as nat, n as nat);
        vstd::arithmetic::div_mod::lemma_small_mod(s as nat, n as nat);
    } else {
        vstd::arithmetic::div_mod::lemma_small_mod((n - 1) as nat, n as nat);
        vstd::arithmetic::div_mod::lemma_mod_self_0(n);
    }
}

impl SessionPicker {
    /// A picker over the configured sessions, with the first row highlighted.
    pub fn new(config: &SessionsConfig) -> (p: Self)
        ensures
            p@ == (SessionPickerView {
                sessions: config.sessions@,
                selected: 0,
                focus: PickerFocus::List,
                form: None,
                action: None,
            }),
    {
        SessionPicker {
            sessions: clone_entries(&config.sessions),
            selected: 0,
            focus: PickerFocus::List,
            form: None,
            action: None,
        }
    }

    /// Whether the picker stays on screen: no action has been asked for yet.
    pub fn is_active(&self) -> (b: bool)
        ensures
            b == self.action is None,
    {
        self.action.is_none()
    }

    /// Up: in the list the highlight moves up, from the first row round to
    /// the "Add" row; in the form the previous field gets the focus.
    pub fn move_up(&mut self)
        requires
            old(self).sessions@.len() < usize::MAX,
        ensures
            final(self)@ == old(self)@.moved_up(),
    {
        if self.focus == PickerFocus::List {
            let rows = self.sessions.len() + 1;
            let t = self.selected % rows;
            proof {
                let (s, n) = (self.selected as int, rows as int);
                lemma_mod_bound(s, n);
                lemma_add_mod_noop(s, n - 1, n);
                lemma_small_mod((n - 1) as nat, n as nat);
                lemma_mod_add_multiples_vanish(t - 1, n);
                if t > 0 {
                    lemma_small_mod((t - 1) as nat, n as nat);
                }
            }
            self.selected = if t == 0 {
                rows - 1
            } else {
                t - 1
            };
        } else if let Some(form) = &mut self.form {
            form.prev_field();
        }
    }

    /// Down: in the list the highlight moves down, from the "Add" row round
    /// to the first row; in the form the next field gets the focus.
    pub fn move_down(&mut self)
        requires
            old(self).sessions@.len() < usize::MAX,
        ensures
            final(self)@ == old(self)@.moved_down(),
    {
        if self.focus == PickerFocus::List {
            let rows = self.sessions.len() + 1;
            let t = self.selected % rows;
            proof {
                let (s, n) = (self.selected as int, rows as int);
                lemma_mod_bound(s, n);
                lemma_add_mod_noop(s, 1, n);
                if n > 1 {
                    lemma_small_mod(1, n as nat);
                } else {
                    lemma_mod_self_0(1);
                }
                lemma_mod_self_0(n);
                if t + 1 < n {
                    lemma_small_mod((t + 1) as nat, n as nat);
                }
            }
            self.selected = if t + 1 == rows {
                0
            } else {
                t + 1
            };
        } else if let Some(form) = &mut self.form {
            form.next_field();
        }
    }

    pub fn confirm(&mut self)
        ensures
            final(self)@ == old(self)@.confirmed(),
    {
        if self.focus == PickerFocus::Form {
            if let Some(form) = &self.form {
                if form.lich_mode {
                    if let Some(entry) = form.to_entry() {
                        self.action = Some(PickerAction::AddSession(entry));
                    }
                } else {
                    self.action = Some(PickerAction::OpenWizard);
                }
            }
            return;
        }
        let add_row = self.sessions.len();
        if self.selected == add_row {
            self.focus = PickerFocus::Form;
            self.form = Some(AddForm::new());
        } else {
            self.action = Some(PickerAction::Connect(self.selected));
        }
    }

    /// Asks to remove the highlighted session (not the "Add" row).
    pub fn remove_selected(&mut self)
        ensures
            final(self)@ == (if old(self).focus == PickerFocus::List && old(self).selected
                < old(self).sessions@.len() {
                SessionPickerView {
                    action: Some(ActionView::Remove(old(self).selected)),
                    ..old(self)@
                }
            } else {
                old(self)@
            }),
    {
        if self.focus == PickerFocus::List && self.selected < self.sessions.len() {
            self.action = Some(PickerAction::Remove(self.selected));
        }
    }

    /// Esc: closes the form; in the list with no sessions, asks to quit.
    pub fn cancel_form(&mut self)
        ensures
            final(self)@ == (if old(self).focus == PickerFocus::Form {
                SessionPickerView { focus: PickerFocus::List, form: None, ..old(self)@ }
            } else if old(self).sessions@.len() == 0 {
                SessionPickerView { action: Some(ActionView::Quit), ..old(self)@ }
            } else {
                old(self)@
            }),
    {
        if self.focus == PickerFocus::Form {
            self.focus = PickerFocus::List;
            self.form = None;
        } else if self.sessions.len() == 0 {
            self.action = Some(PickerAction::Quit);
        }
    }

    pub fn type_char(&mut self, c: char)
        ensures
            final(self)@ == old(self)@.with_form(|x: AddFormView| x.typed(c)),
    {
        if let Some(form) = &mut self.form {
            form.type_char(c);
        }
    }

    pub fn backspace(&mut self)
        ensures
            final(self)@ == old(self)@.with_form(|x: AddFormView| x.backspaced()),
    {
        if let Some(form) = &mut self.form {
            form.backspace();
        }
    }

    pub fn tab_field(&mut self)
        ensures
            final(self)@ == old(self)@.with_form(
                |x: AddFormView| AddFormView { focused_field: field_after(x.focused_field), ..x },
            ),
    {
        if let Some(form) = &mut self.form {
            form.next_field();
        }
    }

    /// Switches the form between Lich and Direct (F2).
    pub fn toggle_mode(&mut self)
        ensures
            final(self)@ == old(self)@.with_form(
                |x: AddFormView| AddFormView { lich_mode: !x.lich_mode, ..x },
            ),
    {
        if let Some(form) = &mut self.form {
            form.lich_mode = !form.lich_mode;
        }
    }
}

} // verus!
