//! The text of the pickers' rows: what each line of the session list, the
//! profile list, the profile form and the add-session form reads. Where on
//! the screen and in which colours they go is the renderer's business.
use vstd::prelude::*;

use crate::login_wizard::Profile;
use crate::session_picker::{AddForm, FormField};
use crate::sessions_config::{SessionEntry, SessionModeConfig};
use crate::text::{chars_of, concat, decimal, owned, push_char, push_decimal};

verus! {

broadcast use vstd::string::group_string_axioms;

/// `s` padded with spaces on the right to at least `width` characters, as
/// `{:<width}` formats it.
pub open spec fn pad_right(s: Seq<char>, width: int) -> Seq<char> {
    if s.len() < width {
        s + Seq::new((width - s.len()) as nat, |i: int| ' ')
    } else {
        s
    }
}

/// Appends `s` padded to `width` characters.
pub fn append_padded(out: &mut String, s: &str, width: usize)
    ensures
        final(out)@ == old(out)@ + pad_right(s@, width as int),
{
    out.append(s);
    let n = chars_of(s).len();
    let mut k = n;
    let ghost base = old(out)@ + s@;
    while k < width
        invariant
            n == s@.len(),
            n <= k,
            k <= width || k == n,
            out@ == base + Seq::new((k - n) as nat, |i: int| ' '),
        decreases width - k,
    {
        push_char(out, ' ');
        assert(Seq::new((k - n) as nat, |i: int| ' ').push(' ') =~= Seq::new(
            (k + 1 - n) as nat,
            |i: int| ' ',
        ));
        k = k + 1;
    }
    proof {
        if n < width {
            assert(k == width);
        } else {
            assert(Seq::new((k - n) as nat, |i: int| ' ') =~= Seq::<char>::empty());
            assert(base + Seq::<char>::empty() =~= base);
        }
        assert(old(out)@ + s@ + Seq::new((k - n) as nat, |i: int| ' ') =~= old(out)@ + (s@
            + Seq::new((k - n) as nat, |i: int| ' ')));
    }
}

/// The arrow that marks the highlighted row.
pub open spec fn marker(selected: bool) -> Seq<char> {
    if selected {
        "▶ "@
    } else {
        "  "@
    }
}

/// The address column of a session row: `host:port`, or `—` unless both are
/// given.
pub open spec fn address_text(e: SessionEntry) -> Seq<char> {
    match (e.host, e.port) {
        (Some(h), Some(p)) => h@ + ":"@ + decimal(p as nat),
        _ => "—"@,
    }
}

/// A row of the session list: marker, label in 20 columns, mode in 8, then
/// the address.
pub open spec fn session_row_text(e: SessionEntry, selected: bool) -> Seq<char> {
    marker(selected) + pad_right(e.label@, 20) + " "@ + pad_right(
        (match e.mode {
            SessionModeConfig::Lich => "Lich"@,
            SessionModeConfig::Direct => "Direct"@,
        }),
        8,
    ) + " "@ + address_text(e)
}

/// The text of a row of the session list.
pub fn session_row(e: &SessionEntry, selected: bool) -> (s: String)
    ensures
        s@ == session_row_text(*e, selected),
{
    let mut s = owned(if selected {
        "▶ "
    } else {
        "  "
    });
    append_padded(&mut s, e.label.as_str(), 20);
    s.append(" ");
    let mode = match e.mode {
        SessionModeConfig::Lich => "Lich",
        SessionModeConfig::Direct => "Direct",
    };
    append_padded(&mut s, mode, 8);
    s.append(" ");
    match (&e.host, e.port) {
        (Some(h), Some(p)) => {
            s.append(h.as_str());
            s.append(":");
            push_decimal(&mut s, p as u64);
        },
        _ => {
            s.append("—");
        },
    }
    assert(s@ =~= session_row_text(*e, selected));
    s
}

/// The connection column of a profile row: `Lich :port`, or `Direct`.
pub open spec fn connection_text(p: Profile) -> Seq<char> {
    if p.use_lich {
        "Lich :"@ + decimal(
            (match p.lich_port {
                Some(x) => x,
                None => 8000u16,
            }) as nat,
        )
    } else {
        "Direct"@
    }
}

/// A row of the profile list: marker, name in 24 columns, account in 14, game
/// in 5, then the connection.
pub open spec fn profile_row_text(p: Profile, selected: bool) -> Seq<char> {
    marker(selected) + pad_right(p.name@, 24) + " "@ + pad_right(p.account@, 14) + " "@
        + pad_right(p.game_code@, 5) + " "@ + connection_text(p)
}

/// The text of a row of the profile list.
pub fn profile_row(p: &Profile, selected: bool) -> (s: String)
    ensures
        s@ == profile_row_text(*p, selected),
{
    let mut s = owned(if selected {
        "▶ "
    } else {
        "  "
    });
    append_padded(&mut s, p.name.as_str(), 24);
    s.append(" ");
    append_padded(&mut s, p.account.as_str(), 14);
    s.append(" ");
    append_padded(&mut s, p.game_code.as_str(), 5);
    s.append(" ");
    if p.use_lich {
        s.append("Lich :");
        push_decimal(&mut s, p.lich_port() as u64);
    } else {
        s.append("Direct");
    }
    assert(s@ =~= profile_row_text(*p, selected));
    s
}

/// `n` copies of `c`.
pub open spec fn repeat_char(c: char, n: nat) -> Seq<char> {
    Seq::new(n, |i: int| c)
}

/// A string of `n` copies of `c`.
pub fn repeat_string(c: char, n: usize) -> (s: String)
    ensures
        s@ == repeat_char(c, n as nat),
{
    let mut s = String::new();
    let mut k: usize = 0;
    while k < n
        invariant
            k <= n,
            s@ == repeat_char(c, k as nat),
        decreases n - k,
    {
        push_char(&mut s, c);
        assert(repeat_char(c, k as nat).push(c) =~= repeat_char(c, (k + 1) as nat));
        k = k + 1;
    }
    s
}

/// A line of the add-session form: `  Label: [value█]`, with the block cursor
/// on the focused field.
pub open spec fn form_line_text(label: Seq<char>, value: Seq<char>, focused: bool) -> Seq<char> {
    "  "@ + label + ": ["@ + value + (if focused {
        "█"@
    } else {
        ""@
    }) + "]"@
}

/// The lines of the add-session form's Lich fields: label, host and port.
pub open spec fn form_lines_text(f: AddForm) -> Seq<Seq<char>> {
    seq![
        form_line_text("Label"@, f.label@, f.focused_field == Some(FormField::Label)),
        form_line_text("Host "@, f.host@, f.focused_field == Some(FormField::Host)),
        form_line_text("Port "@, f.port@, f.focused_field == Some(FormField::Port)),
    ]
}

/// One line of the add-session form.
fn form_line(label: &str, value: &str, focused: bool) -> (s: String)
    ensures
        s@ == form_line_text(label@, value@, focused),
{
    let mut s = concat("  ", label);
    s.append(": [");
    s.append(value);
    if focused {
        s.append("█");
    }
    s.append("]");
    proof {
        reveal_strlit("");
        assert(s@ =~= form_line_text(label@, value@, focused));
    }
    s
}

/// The lines of the add-session form's Lich fields.
pub fn form_lines(f: &AddForm) -> (v: Vec<String>)
    ensures
        v@.len() == 3,
        forall|i: int| 0 <= i < 3 ==> #[trigger] v@[i]@ == form_lines_text(*f)[i],
{
    let label_focused = match f.focused_field {
        Some(FormField::Label) => true,
        _ => false,
    };
    let host_focused = match f.focused_field {
        Some(FormField::Host) => true,
        _ => false,
    };
    let port_focused = match f.focused_field {
        Some(FormField::Port) => true,
        _ => false,
    };
    let mut v: Vec<String> = Vec::new();
    v.push(form_line("Label", f.label.as_str(), label_focused));
    v.push(form_line("Host ", f.host.as_str(), host_focused));
    v.push(form_line("Port ", f.port.as_str(), port_focused));
    v
}

/// The mode line of the add-session form: which of Lich Proxy and Direct is
/// chosen.
pub fn form_mode_label(lich_mode: bool) -> (s: &'static str)
    ensures
        s@ == (if lich_mode {
            "[Lich Proxy]  Direct     "@
        } else {
            " Lich Proxy  [Direct]    "@
        }),
{
    if lich_mode {
        "[Lich Proxy]  Direct     "
    } else {
        " Lich Proxy  [Direct]    "
    }
}

} // verus!
