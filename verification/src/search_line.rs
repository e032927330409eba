//! The search line: the pattern being typed in search mode and its cursor.
//!
//! The cursor is a byte offset into the pattern's UTF-8 text, as `String`
//! positions are; it moves by one per key.
use vstd::prelude::*;
use vstd::utf8::{encode_utf8, is_char_boundary};

verus! {

broadcast use vstd::string::group_string_axioms;

/// The UTF-8 bytes of a text.
pub open spec fn utf8(s: Seq<char>) -> Seq<u8> {
    encode_utf8(s)
}

/// `String::insert`: puts `c` at byte position `idx`, which its documentation
/// requires to be a character boundary.
#[verifier::external_body]
fn insert_at(s: &mut String, idx: usize, c: char)
    requires
        is_char_boundary(utf8(old(s)@), idx as int),
    ensures
        utf8(final(s)@) == utf8(old(s)@).take(idx as int) + utf8(seq![c]) + utf8(old(s)@).skip(
            idx as int,
        ),
{
    s.insert(idx, c)
}

/// `String::remove`: takes out the character that starts at byte position
/// `idx`, which its documentation requires to be a character boundary before
/// the end, and returns it.
#[verifier::external_body]
fn remove_at(s: &mut String, idx: usize) -> (c: char)
    requires
        is_char_boundary(utf8(old(s)@), idx as int),
        idx < utf8(old(s)@).len(),
    ensures
        idx + utf8(seq![c]).len() <= utf8(old(s)@).len(),
        utf8(old(s)@).subrange(idx as int, idx + utf8(seq![c]).len()) == utf8(seq![c]),
        utf8(final(s)@) == utf8(old(s)@).take(idx as int) + utf8(old(s)@).skip(
            idx + utf8(seq![c]).len(),
        ),
{
    s.remove(idx)
}

/// The pattern being typed and the cursor in it.
#[derive(Debug)]
pub struct SearchLine {
    pub input: String,
    pub cursor: usize,
}

/// A key in search mode.
#[derive(Debug, Clone, Copy, PartialEq, Eq)]
pub enum SearchKey {
    PageUp,
    PageDown,
    Enter,
    Char(char),
    Backspace,
    Left,
    Right,
    Home,
    End,
    Esc,
    Other,
}

/// What a key in search mode asks of the frontend.
#[derive(Debug)]
pub enum SearchEffect {
    /// Nothing to do.
    Nothing,
    /// The line changed: redraw.
    Redraw,
    /// Ctrl+PageUp: go to the previous match in the focused window.
    PrevMatch,
    /// Ctrl+PageDown: go to the next match in the focused window.
    NextMatch,
    /// Enter: search the focused window for this pattern.
    Run(String),
    /// Esc: leave search mode (the line is cleared).
    Exit,
}

/// The key needs the cursor on a character boundary: typing inserts there,
/// and Backspace removes the character that starts one byte before it.
pub open spec fn key_allowed(line: SearchLine, key: SearchKey) -> bool {
    let b = utf8(line.input@);
    match key {
        SearchKey::Char(_) => is_char_boundary(b, line.cursor as int) && line.cursor < usize::MAX,
        SearchKey::Backspace => line.cursor > 0 ==> is_char_boundary(b, line.cursor - 1)
            && line.cursor - 1 < b.len(),
        _ => true,
    }
}

/// Handles one key in search mode.
pub fn handle_search_key(line: &mut SearchLine, key: SearchKey, ctrl: bool) -> (effect: SearchEffect)
    requires
        key_allowed(*old(line), key),
    ensures
        ({
            let b = utf8(old(line).input@);
            let c0 = old(line).cursor;
            match key {
                SearchKey::PageUp => if ctrl {
                    effect is PrevMatch && *final(line) == *old(line)
                } else {
                    effect is Nothing && *final(line) == *old(line)
                },
                SearchKey::PageDown => if ctrl {
                    effect is NextMatch && *final(line) == *old(line)
                } else {
                    effect is Nothing && *final(line) == *old(line)
                },
                SearchKey::Enter => *final(line) == *old(line) && (if old(line).input@.len() == 0 {
                    effect is Nothing
                } else {
                    effect matches SearchEffect::Run(p) && p@ == old(line).input@
                }),
                SearchKey::Char(c) => {
                    &&& effect is Redraw
                    &&& utf8(final(line).input@) == b.take(c0 as int) + utf8(seq![c]) + b.skip(
                        c0 as int,
                    )
                    &&& final(line).cursor == c0 + 1
                },
                SearchKey::Backspace => if c0 > 0 {
                    &&& effect is Redraw
                    &&& final(line).cursor == c0 - 1
                    &&& exists|c: char|
                        {
                            &&& c0 - 1 + utf8(seq![c]).len() <= b.len()
                            &&& #[trigger] b.subrange(c0 - 1, c0 - 1 + utf8(seq![c]).len()) == utf8(
                                seq![c],
                            )
                            &&& utf8(final(line).input@) == b.take(c0 - 1) + b.skip(
                                c0 - 1 + utf8(seq![c]).len(),
                            )
                        }
                } else {
                    effect is Nothing && *final(line) == *old(line)
                },
                SearchKey::Left => if c0 > 0 {
                    effect is Redraw && final(line).input == old(line).input && final(line).cursor
                        == c0 - 1
                } else {
                    effect is Nothing && *final(line) == *old(line)
                },
                SearchKey::Right => if c0 < b.len() as usize {
                    effect is Redraw && final(line).input == old(line).input && final(line).cursor
                        == c0 + 1
                } else {
                    effect is Nothing && *final(line) == *old(line)
                },
                SearchKey::Home => effect is Redraw && final(line).input == old(line).input
                    && final(line).cursor == 0,
                SearchKey::End => effect is Redraw && final(line).input == old(line).input
                    && final(line).cursor == b.len() as usize,
                SearchKey::Esc => {
                    &&& effect is Exit
                    &&& final(line).input@.len() == 0
                    &&& final(line).cursor == 0
                },
                SearchKey::Other => effect is Nothing && *final(line) == *old(line),
            }
        }),
{
    match key {
        SearchKey::PageUp => {
            if ctrl {
                SearchEffect::PrevMatch
            } else {
                SearchEffect::Nothing
            }
        },
        SearchKey::PageDown => {
            if ctrl {
                SearchEffect::NextMatch
            } else {
                SearchEffect::Nothing
            }
        },
        SearchKey::Enter => {
            if line.input.as_str().is_empty() {
                SearchEffect::Nothing
            } else {
                SearchEffect::Run(line.input.clone())
            }
        },
        SearchKey::Char(c) => {
            insert_at(&mut line.input, line.cursor, c);
            line.cursor = line.cursor + 1;
            SearchEffect::Redraw
        },
        SearchKey::Backspace => {
            if line.cursor > 0 {
                line.cursor = line.cursor - 1;
                let _removed = remove_at(&mut line.input, line.cursor);
                SearchEffect::Redraw
            } else {
                SearchEffect::Nothing
            }
        },
        SearchKey::Left => {
            if line.cursor > 0 {
                line.cursor = line.cursor - 1;
                SearchEffect::Redraw
            } else {
                SearchEffect::Nothing
            }
        },
        SearchKey::Right => {
            if line.cursor < line.input.as_str().len() {
                line.cursor = line.cursor + 1;
                SearchEffect::Redraw
            } else {
                SearchEffect::Nothing
            }
        },
        SearchKey::Home => {
            line.cursor = 0;
            SearchEffect::Redraw
        },
        SearchKey::End => {
            line.cursor = line.input.as_str().len();
            SearchEffect::Redraw
        },
        SearchKey::Esc => {
            line.input = String::new();
            line.cursor = 0;
            SearchEffect::Exit
        },
        SearchKey::Other => SearchEffect::Nothing,
    }
}

} // verus!
