//! The tab bar: one tab per session across the top of the screen, e.g.
//! `[● Buckwheet] [… Altchar 3] [! Mule]`.
//!
//! ● connected, ○ disconnected, … connecting, ↻ reconnecting, ! error; the
//! number is the unread count. This module says what each tab reads and which
//! cell of the row gets which character and colour.
use vstd::prelude::*;

use crate::layout::Area;
use crate::seq_util::lemma_take_push;
use crate::text::{chars_of, decimal, push_decimal, str_equal};

verus! {

broadcast use vstd::string::group_string_axioms;

/// Data for a single tab entry.
#[derive(Debug, Clone, Copy)]
pub struct TabEntry<'a> {
    pub label: &'a str,
    pub is_active: bool,
    /// Status symbol: "●" "○" "…" "↻" "!"
    pub status: &'a str,
    pub unread: usize,
    pub sound_enabled: bool,
    pub tts_enabled: bool,
}

/// The tab bar.
#[derive(Debug)]
pub struct TabBar<'a> {
    pub tabs: Vec<TabEntry<'a>>,
    pub compact: bool,
}

impl<'a> TabBar<'a> {
    pub fn new(tabs: Vec<TabEntry<'a>>) -> (b: Self)
        ensures
            b.tabs@ == tabs@,
            !b.compact,
    {
        TabBar { tabs, compact: false }
    }

    pub fn compact(self, compact: bool) -> (b: Self)
        ensures
            b.tabs@ == self.tabs@,
            b.compact == compact,
    {
        let mut b = self;
        b.compact = compact;
        b
    }
}

/// The colour of a status symbol.
#[derive(Debug, Clone, Copy, PartialEq, Eq)]
pub enum TabColor {
    Green,
    Yellow,
    Cyan,
    Red,
    DarkGray,
}

/// The colour that shows a status symbol.
pub open spec fn status_color_of(sym: Seq<char>) -> TabColor {
    if sym == "●"@ {
        TabColor::Green
    } else if sym == "…"@ {
        TabColor::Yellow
    } else if sym == "↻"@ {
        TabColor::Cyan
    } else if sym == "!"@ {
        TabColor::Red
    } else {
        TabColor::DarkGray
    }
}

/// The colour of a status symbol.
pub fn status_color(sym: &str) -> (c: TabColor)
    ensures
        c == status_color_of(sym@),
{
    if str_equal(sym, "●") {
        TabColor::Green
    } else if str_equal(sym, "…") {
        TabColor::Yellow
    } else if str_equal(sym, "↻") {
        TabColor::Cyan
    } else if str_equal(sym, "!") {
        TabColor::Red
    } else {
        TabColor::DarkGray
    }
}

/// The first two characters of `s` (all of them when it is shorter).
pub open spec fn first_two(s: Seq<char>) -> Seq<char> {
    if s.len() < 2 {
        s
    } else {
        s.subrange(0, 2)
    }
}

/// The text of a tab. Compact: status symbol, the label's first two
/// characters, mute marks, and `●` when there is unread text. Full: status
/// symbol, label, mute marks, and the unread count when it is not zero.
pub open spec fn tab_text(t: TabEntry, compact: bool) -> Seq<char> {
    if compact {
        " "@ + t.status@ + first_two(t.label@) + (if t.sound_enabled {
            ""@
        } else {
            "🔇"@
        }) + (if t.tts_enabled {
            ""@
        } else {
            "🔕"@
        }) + (if t.unread > 0 {
            " ● "@
        } else {
            " "@
        })
    } else {
        " "@ + t.status@ + " "@ + t.label@ + (if t.sound_enabled {
            ""@
        } else {
            " 🔇"@
        }) + (if t.tts_enabled {
            ""@
        } else {
            " 🔕"@
        }) + (if t.unread > 0 {
            " "@ + decimal(t.unread as nat) + " "@
        } else {
            " "@
        })
    }
}

/// A tab with unread lines shows their count: its full text is the text it
/// would have with nothing unread, followed by the count and a space, so it
/// ends with " <count> ". In the compact bar it is followed by a dot and a
/// space instead.
pub proof fn lemma_unread_badge(t: TabEntry)
    requires
        t.unread > 0,
    ensures
        ({
            let quiet = TabEntry { unread: 0, ..t };
            let badge = " "@ + decimal(t.unread as nat) + " "@;
            let full = tab_text(t, false);
            &&& full == tab_text(quiet, false) + decimal(t.unread as nat) + " "@
            &&& full.len() >= badge.len()
            &&& full.subrange(full.len() - badge.len(), full.len() as int) == badge
            &&& tab_text(t, true) == tab_text(quiet, true) + "● "@
        }),
{
    reveal_strlit(" ");
    reveal_strlit(" ● ");
    reveal_strlit("● ");
    let quiet = TabEntry { unread: 0, ..t };
    let n = decimal(t.unread as nat);
    let head = " "@ + t.status@ + " "@ + t.label@ + (if t.sound_enabled {
        ""@
    } else {
        " 🔇"@
    }) + (if t.tts_enabled {
        ""@
    } else {
        " 🔕"@
    });
    let chead = " "@ + t.status@ + first_two(t.label@) + (if t.sound_enabled {
        ""@
    } else {
        "🔇"@
    }) + (if t.tts_enabled {
        ""@
    } else {
        "🔕"@
    });
    assert(tab_text(t, false) == head + (" "@ + n + " "@));
    assert(tab_text(quiet, false) == head + " "@);
    assert(tab_text(t, false) =~= head + " "@ + n + " "@);
    let full = tab_text(t, false);
    let badge = " "@ + n + " "@;
    assert(full.subrange(full.len() - badge.len(), full.len() as int) =~= badge);
    assert(tab_text(t, true) == chead + " ● "@);
    assert(tab_text(quiet, true) == chead + " "@);
    assert(" ● "@ =~= " "@ + "● "@);
    assert(chead + " ● "@ =~= chead + " "@ + "● "@);
}

/// The text of a tab.
pub fn tab_label(t: &TabEntry, compact: bool) -> (s: String)
    ensures
        s@ == tab_text(*t, compact),
{
    let mut s = String::from_str(" ");
    s.append(t.status);
    if compact {
        let cs = chars_of(t.label);
        let n: usize = if cs.len() < 2 {
            cs.len()
        } else {
            2
        };
        let mut i: usize = 0;
        let ghost before = s@;
        while i < n
            invariant
                i <= n <= cs.len(),
                cs@ == t.label@,
                n == (if cs.len() < 2 {
                    cs.len()
                } else {
                    2
                }),
                s@ == before + cs@.subrange(0, i as int),
            decreases n - i,
        {
            crate::text::push_char(&mut s, cs[i]);
            assert(cs@.subrange(0, i + 1) =~= cs@.subrange(0, i as int).push(cs@[i as int]));
            i = i + 1;
        }
        assert(cs@.subrange(0, n as int) =~= first_two(t.label@));
        if !t.sound_enabled {
            s.append("🔇");
        }
        if !t.tts_enabled {
            s.append("🔕");
        }
        if t.unread > 0 {
            s.append(" ● ");
        } else {
            s.append(" ");
        }
    } else {
        s.append(" ");
        s.append(t.label);
        if !t.sound_enabled {
            s.append(" 🔇");
        }
        if !t.tts_enabled {
            s.append(" 🔕");
        }
        if t.unread > 0 {
            s.append(" ");
            push_decimal(&mut s, t.unread as u64);
            s.append(" ");
        } else {
            s.append(" ");
        }
    }
    proof {
        reveal_strlit("");
        assert(s@ =~= tab_text(*t, compact));
    }
    s
}

// ─── Cells ──────────────────────────────────────────────────────────────────

/// How a cell of the tab bar is drawn.
#[derive(Debug, Clone, Copy, PartialEq, Eq)]
pub enum CellKind {
    /// Part of a tab: highlighted when the tab is active; the status symbol
    /// (the tab's second character) carries the status colour.
    Tab { active: bool, color: Option<TabColor> },
    /// The `│` between tabs.
    Separator,
    /// Empty space after the last tab.
    Blank,
}

/// One drawn cell of the tab bar's row.
#[derive(Debug, Clone, Copy, PartialEq, Eq)]
pub struct Cell {
    pub x: u16,
    pub ch: char,
    pub kind: CellKind,
}

/// A tab as drawn: its text, whether it is active, and its status colour.
pub struct DrawnTab {
    pub text: Seq<char>,
    pub active: bool,
    pub color: TabColor,
}

/// The tabs of a bar as drawn.
pub open spec fn drawn_tabs(tabs: Seq<TabEntry>, compact: bool) -> Seq<DrawnTab> {
    tabs.map_values(
        |t: TabEntry|
            DrawnTab {
                text: tab_text(t, compact),
                active: t.is_active,
                color: status_color_of(t.status@),
            },
    )
}

/// The `i`-th cell of a tab that starts at column `x`.
pub open spec fn tab_cell(t: DrawnTab, x: int, i: int) -> Cell {
    Cell {
        x: (x + i) as u16,
        ch: t.text[i],
        kind: CellKind::Tab {
            active: t.active,
            color: if i == 1 {
                Some(t.color)
            } else {
                None
            },
        },
    }
}

/// The cells of a tab that starts at column `x`, cut at column `right`.
pub open spec fn tab_cells(t: DrawnTab, x: int, right: int) -> Seq<Cell> {
    let n = if right - x < t.text.len() {
        if right - x > 0 {
            right - x
        } else {
            0
        }
    } else {
        t.text.len() as int
    };
    Seq::new(n as nat, |i: int| tab_cell(t, x, i))
}

/// The cells of a tab: as many as fit before `right`, each with its column
/// and character.
proof fn lemma_tab_cells(t: DrawnTab, x: int, right: int)
    requires
        x <= right,
    ensures
        tab_cells(t, x, right).len() == (if right - x < t.text.len() {
            right - x
        } else {
            t.text.len() as int
        }),
        forall|i: int|
            0 <= i < tab_cells(t, x, right).len() ==> #[trigger] tab_cells(t, x, right)[i]
                == tab_cell(t, x, i),
{
}

/// Blank cells from column `x` up to `right`.
pub open spec fn blank_cells(x: int, right: int) -> Seq<Cell> {
    Seq::new(
        (if right > x {
            right - x
        } else {
            0
        }) as nat,
        |i: int| Cell { x: (x + i) as u16, ch: ' ', kind: CellKind::Blank },
    )
}

/// The cells of the tabs from column `x` on: each tab, then a separator;
/// drawing stops once a tab reaches column `right`, and otherwise the rest
/// of the row is blank.
pub open spec fn bar_cells(tabs: Seq<DrawnTab>, x: int, right: int) -> Seq<Cell>
    decreases tabs.len(),
{
    if tabs.len() == 0 {
        blank_cells(x, right)
    } else {
        let t = tabs[0];
        let end = x + t.text.len();
        if end >= right {
            tab_cells(t, x, right)
        } else {
            tab_cells(t, x, right) + seq![Cell { x: end as u16, ch: '│', kind: CellKind::Separator }]
                + bar_cells(tabs.drop_first(), end + 1, right)
        }
    }
}

/// Drawing the tabs from column `x` never takes a column past `u16::MAX`.
pub open spec fn bar_fits(tabs: Seq<DrawnTab>, x: int, right: int) -> bool
    decreases tabs.len(),
{
    if tabs.len() == 0 {
        true
    } else {
        let end = x + tabs[0].text.len();
        end <= u16::MAX && (end >= right || bar_fits(tabs.drop_first(), end + 1, right))
    }
}

impl<'a> TabBar<'a> {
    /// Whether the bar can be drawn in `area` without a column past
    /// `u16::MAX`: what [`TabBar::cells`] needs.
    pub fn fits(&self, area: Area) -> (b: bool)
        ensures
            b == (area.x + area.width <= u16::MAX && bar_fits(
                drawn_tabs(self.tabs@, self.compact),
                area.x as int,
                area.x + area.width,
            )),
    {
        if area.x as u32 + area.width as u32 > u16::MAX as u32 {
            return false;
        }
        let right: u32 = area.x as u32 + area.width as u32;
        let ghost all = drawn_tabs(self.tabs@, self.compact);
        let mut x: u32 = area.x as u32;
        let mut k: usize = 0;
        assert(all.skip(0) =~= all);
        while k < self.tabs.len()
            invariant
                all == drawn_tabs(self.tabs@, self.compact),
                right == area.x + area.width,
                right <= u16::MAX,
                k <= self.tabs@.len(),
                x <= u16::MAX + 1,
                bar_fits(all, area.x as int, right as int) == bar_fits(all.skip(k as int), x as int, right as int),
            decreases self.tabs@.len() - k,
        {
            let n = chars_of(tab_label(&self.tabs[k], self.compact).as_str()).len();
            let ghost rest = all.skip(k as int);
            assert(rest[0] == all[k as int]);
            assert(rest.drop_first() =~= all.skip(k + 1));
            if n > 0xFFFF || n as u32 + x > u16::MAX as u32 {
                return false;
            }
            let end: u32 = x + n as u32;
            if end >= right {
                return true;
            }
            x = end + 1;
            k = k + 1;
        }
        true
    }

    /// The cells that the bar draws on the first row of `area`; nothing when
    /// the area has no rows.
    pub fn cells(&self, area: Area) -> (r: Vec<Cell>)
        requires
            area.x + area.width <= u16::MAX,
            bar_fits(drawn_tabs(self.tabs@, self.compact), area.x as int, area.x + area.width),
        ensures
            r@ == (if area.height == 0 {
                Seq::empty()
            } else {
                bar_cells(drawn_tabs(self.tabs@, self.compact), area.x as int, area.x + area.width)
            }),
    {
        let mut out: Vec<Cell> = Vec::new();
        if area.height == 0 {
            return out;
        }
        let right: u16 = area.x + area.width;
        let ghost all = drawn_tabs(self.tabs@, self.compact);
        let ghost whole = bar_cells(all, area.x as int, right as int);
        let mut x: u16 = area.x;
        let mut k: usize = 0;
        let mut stopped = false;
        assert(all.skip(0) =~= all);
        while k < self.tabs.len() && !stopped
            invariant
                right == area.x + area.width,
                all == drawn_tabs(self.tabs@, self.compact),
                whole == bar_cells(all, area.x as int, right as int),
                k <= self.tabs@.len(),
                stopped ==> out@ == whole,
                !stopped ==> out@ + bar_cells(all.skip(k as int), x as int, right as int) == whole,
                !stopped ==> bar_fits(all.skip(k as int), x as int, right as int),
                !stopped ==> x <= right,
            decreases self.tabs@.len() - k,
        {
            let tab = &self.tabs[k];
            let text = chars_of(tab_label(tab, self.compact).as_str());
            let color = status_color(tab.status);
            let ghost t = all[k as int];
            let ghost rest = all.skip(k as int);
            assert(rest[0] == t);
            assert(t.text == text@);
            let avail: usize = (right - x) as usize;
            let n: usize = if avail < text.len() {
                avail
            } else {
                text.len()
            };
            let ghost base = out@;
            let ghost cells_t = tab_cells(t, x as int, right as int);
            proof {
                lemma_tab_cells(t, x as int, right as int);
            }
            let mut i: usize = 0;
            while i < n
                invariant
                    n <= text@.len(),
                    n as int == (if avail < text@.len() {
                        avail as int
                    } else {
                        text@.len() as int
                    }),
                    avail == right - x,
                    avail <= u16::MAX,
                    x <= right,
                    cells_t == tab_cells(t, x as int, right as int),
                    cells_t.len() == n,
                    t.text == text@,
                    t.active == tab.is_active,
                    t.color == color,
                    i <= n,
                    out@ == base + tab_cells(t, x as int, right as int).take(i as int),
                decreases n - i,
            {
                let c = Cell {
                    x: x + i as u16,
                    ch: text[i],
                    kind: CellKind::Tab {
                        active: tab.is_active,
                        color: if i == 1 {
                            Some(color)
                        } else {
                            None
                        },
                    },
                };
                proof {
                    lemma_take_push(cells_t, i as int);
                    assert(cells_t[i as int] == tab_cell(t, x as int, i as int));
                    assert(tab_cell(t, x as int, i as int) == c);
                }
                out.push(c);
                i = i + 1;
            }
            assert(cells_t.take(n as int) =~= cells_t);
            assert(rest.drop_first() =~= all.skip(k + 1));
            let ghost x0 = x as int;
            let end: usize = x as usize + text.len();
            if end >= right as usize {
                stopped = true;
            } else {
                let sep = Cell { x: end as u16, ch: '│', kind: CellKind::Separator };
                out.push(sep);
                x = (end + 1) as u16;
                assert(out@ + bar_cells(all.skip(k + 1), x as int, right as int) =~= base
                    + bar_cells(rest, x0, right as int));
            }
            k = k + 1;
        }
        if !stopped {
            assert(all.skip(k as int).len() == 0);
            while x < right
                invariant
                    !stopped,
                    x <= right,
                    out@ + blank_cells(x as int, right as int) == whole,
                decreases right - x,
            {
                out.push(Cell { x, ch: ' ', kind: CellKind::Blank });
                assert(blank_cells(x as int, right as int) =~= seq![
                    Cell { x, ch: ' ', kind: CellKind::Blank },
                ] + blank_cells(x + 1, right as int));
                x = x + 1;
            }
            assert(blank_cells(x as int, right as int) =~= Seq::<Cell>::empty());
        }
        out
    }
}

} // verus!
