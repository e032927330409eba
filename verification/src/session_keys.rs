//! Session switching commands.
//!
//! Key handlers produce these as strings starting with `//session:`; the
//! runtime recognises them and acts on them instead of sending them to the game.
use vstd::prelude::*;

use crate::text::{
    decimal, has_prefix, lemma_decimal, lemma_parse_decimal, parse_unsigned, parse_usize,
    push_decimal, starts_with, str_equal, strip_prefix,
};

verus! {

broadcast use vstd::string::group_string_axioms;

/// The prefix of every session command.
pub open spec fn session_prefix() -> Seq<char> {
    "//session:"@
}

/// Whether `cmd` is a session command rather than text for the game.
pub fn is_session_cmd(cmd: &str) -> (b: bool)
    ensures
        b == has_prefix(cmd@, session_prefix()),
{
    starts_with(cmd, "//session:")
}

/// A session command.
#[derive(Debug, Clone, Copy, PartialEq, Eq)]
pub enum SessionCmd {
    SwitchToIndex(usize),
    Next,
    Prev,
    New,
    Close,
    ToggleCompact,
    Broadcast,
    ToggleSound,
    ToggleTts,
}

/// The command that a keyword after the prefix names.
pub open spec fn keyword_cmd(p: Seq<char>) -> Option<SessionCmd> {
    if p == "next"@ {
        Some(SessionCmd::Next)
    } else if p == "prev"@ {
        Some(SessionCmd::Prev)
    } else if p == "new"@ {
        Some(SessionCmd::New)
    } else if p == "close"@ {
        Some(SessionCmd::Close)
    } else if p == "compact"@ {
        Some(SessionCmd::ToggleCompact)
    } else if p == "broadcast"@ {
        Some(SessionCmd::Broadcast)
    } else if p == "sound"@ {
        Some(SessionCmd::ToggleSound)
    } else if p == "tts"@ {
        Some(SessionCmd::ToggleTts)
    } else {
        None
    }
}

/// What `text` means as a session command: the prefix, then a keyword, or
/// `switch:` and a decimal `usize`.
pub open spec fn parse_cmd(text: Seq<char>) -> Option<SessionCmd> {
    if !has_prefix(text, session_prefix()) {
        None
    } else {
        let p = text.subrange(session_prefix().len() as int, text.len() as int);
        match keyword_cmd(p) {
            Some(c) => Some(c),
            None => if has_prefix(p, "switch:"@) {
                match parse_unsigned(p.subrange(7, p.len() as int), usize::MAX as nat) {
                    Some(v) => Some(SessionCmd::SwitchToIndex(v as usize)),
                    None => None,
                }
            } else {
                None
            },
        }
    }
}

/// The text of a session command.
pub open spec fn cmd_text(c: SessionCmd) -> Seq<char> {
    match c {
        SessionCmd::SwitchToIndex(i) => "//session:switch:"@ + decimal(i as nat),
        SessionCmd::Next => "//session:next"@,
        SessionCmd::Prev => "//session:prev"@,
        SessionCmd::New => "//session:new"@,
        SessionCmd::Close => "//session:close"@,
        SessionCmd::ToggleCompact => "//session:compact"@,
        SessionCmd::Broadcast => "//session:broadcast"@,
        SessionCmd::ToggleSound => "//session:sound"@,
        SessionCmd::ToggleTts => "//session:tts"@,
    }
}

/// Every command's text is a session command, and reads back as that command.
pub proof fn lemma_parse_cmd_text(c: SessionCmd)
    ensures
        has_prefix(cmd_text(c), session_prefix()),
        parse_cmd(cmd_text(c)) == Some(c),
{
    reveal_strlit("//session:");
    reveal_strlit("next");
    reveal_strlit("prev");
    reveal_strlit("new");
    reveal_strlit("close");
    reveal_strlit("compact");
    reveal_strlit("broadcast");
    reveal_strlit("sound");
    reveal_strlit("tts");
    reveal_strlit("switch:");
    let t = cmd_text(c);
    let pre = session_prefix();
    match c {
        SessionCmd::SwitchToIndex(i) => {
            reveal_strlit("//session:switch:");
            lemma_decimal(i as nat);
            lemma_parse_decimal(i as nat, usize::MAX as nat);
            let d = decimal(i as nat);
            assert(t.subrange(0, pre.len() as int) =~= pre);
            let p = t.subrange(pre.len() as int, t.len() as int);
            assert(p =~= "switch:"@ + d);
            assert(p[0] == 's');
            assert(p.len() >= 8);
            assert(p != "next"@);
            assert(p != "prev"@);
            assert(p != "new"@);
            assert(p != "close"@);
            assert(p != "compact"@);
            assert(p[0] != "broadcast"@[0]);
            assert(p != "broadcast"@);
            assert(p != "sound"@);
            assert(p != "tts"@);
            assert(p.subrange(0, 7) =~= "switch:"@);
            assert(p.subrange(7, p.len() as int) =~= d);
        },
        SessionCmd::Next => {
            reveal_strlit("//session:next");
            assert(t.subrange(0, pre.len() as int) =~= pre);
            assert(t.subrange(pre.len() as int, t.len() as int) =~= "next"@);
        },
        SessionCmd::Prev => {
            reveal_strlit("//session:prev");
            assert(t.subrange(0, pre.len() as int) =~= pre);
            let p = t.subrange(pre.len() as int, t.len() as int);
            assert(p =~= "prev"@);
            assert(p[0] != "next"@[0]);
        },
        SessionCmd::New => {
            reveal_strlit("//session:new");
            assert(t.subrange(0, pre.len() as int) =~= pre);
            let p = t.subrange(pre.len() as int, t.len() as int);
            assert(p =~= "new"@);
        },
        SessionCmd::Close => {
            reveal_strlit("//session:close");
            assert(t.subrange(0, pre.len() as int) =~= pre);
            let p = t.subrange(pre.len() as int, t.len() as int);
            assert(p =~= "close"@);
        },
        SessionCmd::ToggleCompact => {
            reveal_strlit("//session:compact");
            assert(t.subrange(0, pre.len() as int) =~= pre);
            let p = t.subrange(pre.len() as int, t.len() as int);
            assert(p =~= "compact"@);
        },
        SessionCmd::Broadcast => {
            reveal_strlit("//session:broadcast");
            assert(t.subrange(0, pre.len() as int) =~= pre);
            let p = t.subrange(pre.len() as int, t.len() as int);
            assert(p =~= "broadcast"@);
        },
        SessionCmd::ToggleSound => {
            reveal_strlit("//session:sound");
            assert(t.subrange(0, pre.len() as int) =~= pre);
            let p = t.subrange(pre.len() as int, t.len() as int);
            assert(p =~= "sound"@);
            assert(p[0] != "close"@[0]);
        },
        SessionCmd::ToggleTts => {
            reveal_strlit("//session:tts");
            assert(t.subrange(0, pre.len() as int) =~= pre);
            let p = t.subrange(pre.len() as int, t.len() as int);
            assert(p =~= "tts"@);
            assert(p[0] != "new"@[0]);
        },
    }
}

impl SessionCmd {
    /// Reads a session command; `None` for anything else.
    pub fn parse(cmd: &str) -> (r: Option<Self>)
        ensures
            r == parse_cmd(cmd@),
    {
        let payload = match strip_prefix(cmd, "//session:") {
            Some(p) => p,
            None => return None,
        };
        let p = payload.as_str();
        proof {
            reveal_strlit("//session:");
        }
        if str_equal(p, "next") {
            Some(Self::Next)
        } else if str_equal(p, "prev") {
            Some(Self::Prev)
        } else if str_equal(p, "new") {
            Some(Self::New)
        } else if str_equal(p, "close") {
            Some(Self::Close)
        } else if str_equal(p, "compact") {
            Some(Self::ToggleCompact)
        } else if str_equal(p, "broadcast") {
            Some(Self::Broadcast)
        } else if str_equal(p, "sound") {
            Some(Self::ToggleSound)
        } else if str_equal(p, "tts") {
            Some(Self::ToggleTts)
        } else {
            match strip_prefix(p, "switch:") {
                Some(rest) => {
                    proof {
                        reveal_strlit("switch:");
                    }
                    match parse_usize(rest.as_str()) {
                        Some(idx) => Some(Self::SwitchToIndex(idx)),
                        None => None,
                    }
                },
                None => None,
            }
        }
    }

    /// The command's text, which [`SessionCmd::parse`] reads back.
    pub fn text(&self) -> (r: String)
        ensures
            r@ == cmd_text(*self),
    {
        match self {
            SessionCmd::SwitchToIndex(i) => Self::switch(*i),
            SessionCmd::Next => String::from_str("//session:next"),
            SessionCmd::Prev => String::from_str("//session:prev"),
            SessionCmd::New => String::from_str("//session:new"),
            SessionCmd::Close => String::from_str("//session:close"),
            SessionCmd::ToggleCompact => String::from_str("//session:compact"),
            SessionCmd::Broadcast => String::from_str("//session:broadcast"),
            SessionCmd::ToggleSound => String::from_str("//session:sound"),
            SessionCmd::ToggleTts => String::from_str("//session:tts"),
        }
    }

    /// The command that switches to the session at a 1-based position.
    pub fn switch(index: usize) -> (r: String)
        ensures
            r@ == cmd_text(SessionCmd::SwitchToIndex(index)),
    {
        let mut s = String::from_str("//session:switch:");
        push_decimal(&mut s, index as u64);
        s
    }

    pub fn next() -> (r: &'static str)
        ensures
            r@ == cmd_text(SessionCmd::Next),
    {
        "//session:next"
    }

    pub fn prev() -> (r: &'static str)
        ensures
            r@ == cmd_text(SessionCmd::Prev),
    {
        "//session:prev"
    }

    pub fn new_session() -> (r: &'static str)
        ensures
            r@ == cmd_text(SessionCmd::New),
    {
        "//session:new"
    }

    pub fn close() -> (r: &'static str)
        ensures
            r@ == cmd_text(SessionCmd::Close),
    {
        "//session:close"
    }

    pub fn compact() -> (r: &'static str)
        ensures
            r@ == cmd_text(SessionCmd::ToggleCompact),
    {
        "//session:compact"
    }

    pub fn sound() -> (r: &'static str)
        ensures
            r@ == cmd_text(SessionCmd::ToggleSound),
    {
        "//session:sound"
    }

    pub fn tts() -> (r: &'static str)
        ensures
            r@ == cmd_text(SessionCmd::ToggleTts),
    {
        "//session:tts"
    }
}

} // verus!
