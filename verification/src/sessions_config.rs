//! The list of configured sessions that survives restarts. Passwords are never
//! part of it.
use vstd::prelude::*;

use crate::connection::clone_opt_string;
use crate::seq_util::{lemma_filter_empty, lemma_filter_push, lemma_take_push};
use crate::text::str_equal;

verus! {

/// How a configured session connects.
#[derive(Debug, Clone, Copy, PartialEq, Eq)]
pub enum SessionModeConfig {
    Lich,
    Direct,
}

/// One configured session.
#[derive(Debug)]
pub struct SessionEntry {
    /// Display name shown in the tab bar
    pub label: String,
    /// Connection mode
    pub mode: SessionModeConfig,
    /// Lich proxy host (mode = lich)
    pub host: Option<String>,
    /// Lich proxy port (mode = lich)
    pub port: Option<u16>,
    /// Account name (mode = direct)
    pub account: Option<String>,
    /// Character name (mode = direct)
    pub character: Option<String>,
    /// Game code e.g. GS3, GSX (mode = direct)
    pub game_code: Option<String>,
    /// Whether to connect automatically on startup
    pub auto_connect: bool,
}

impl Clone for SessionEntry {
    fn clone(&self) -> (r: Self)
        ensures
            r == *self,
    {
        SessionEntry {
            label: self.label.clone(),
            mode: self.mode,
            host: clone_opt_string(&self.host),
            port: self.port,
            account: clone_opt_string(&self.account),
            character: clone_opt_string(&self.character),
            game_code: clone_opt_string(&self.game_code),
            auto_connect: self.auto_connect,
        }
    }
}

/// A copy of a list of session entries.
pub fn clone_entries(v: &Vec<SessionEntry>) -> (r: Vec<SessionEntry>)
    ensures
        r@ == v@,
{
    let mut r: Vec<SessionEntry> = Vec::new();
    let mut i: usize = 0;
    while i < v.len()
        invariant
            i <= v.len(),
            r@ == v@.take(i as int),
        decreases v.len() - i,
    {
        proof {
            lemma_take_push(v@, i as int);
        }
        r.push(v[i].clone());
        i = i + 1;
    }
    assert(v@.take(v.len() as int) =~= v@);
    r
}

/// The configured sessions, in order.
#[derive(Debug)]
pub struct SessionsConfig {
    pub sessions: Vec<SessionEntry>,
}

impl Default for SessionsConfig {
    fn default() -> (r: Self)
        ensures
            r.sessions@.len() == 0,
    {
        SessionsConfig { sessions: Vec::new() }
    }
}

/// The test that keeps an entry whose label is not `label`.
pub open spec fn not_labelled(label: Seq<char>) -> spec_fn(SessionEntry) -> bool {
    |e: SessionEntry| e.label@ != label
}

/// Removing a label right after adding an entry with that label leaves the
/// list as removing the label from the list before would.
pub proof fn lemma_remove_after_add(s: Seq<SessionEntry>, e: SessionEntry)
    ensures
        s.push(e).filter(not_labelled(e.label@)) == s.filter(not_labelled(e.label@)),
{
    lemma_filter_push(s, not_labelled(e.label@), e);
}

impl SessionsConfig {
    /// Appends an entry.
    pub fn add(&mut self, entry: SessionEntry)
        ensures
            final(self).sessions@ == old(self).sessions@.push(entry),
    {
        self.sessions.push(entry);
    }

    /// Drops every entry labelled `label`; the others keep their order.
    pub fn remove(&mut self, label: &str)
        ensures
            final(self).sessions@ == old(self).sessions@.filter(not_labelled(label@)),
    {
        let mut kept: Vec<SessionEntry> = Vec::new();
        let mut i: usize = 0;
        proof {
            lemma_filter_empty(self.sessions@.take(0), not_labelled(label@));
        }
        while i < self.sessions.len()
            invariant
                self.sessions@ == old(self).sessions@,
                i <= self.sessions.len(),
                kept@ == self.sessions@.take(i as int).filter(not_labelled(label@)),
            decreases self.sessions.len() - i,
        {
            proof {
                lemma_take_push(self.sessions@, i as int);
                lemma_filter_push(
                    self.sessions@.take(i as int),
                    not_labelled(label@),
                    self.sessions@[i as int],
                );
            }
            if !str_equal(self.sessions[i].label.as_str(), label) {
                kept.push(self.sessions[i].clone());
            }
            i = i + 1;
        }
        assert(self.sessions@.take(self.sessions.len() as int) =~= self.sessions@);
        self.sessions = kept;
    }
}

} // verus!
