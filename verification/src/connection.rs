//! Named character profiles and the store that keeps them.
//!
//! A profile names an account, a character and a game, and says whether to go
//! through a Lich proxy. Passwords are never part of a profile.
use vstd::prelude::*;

use crate::seq_util::{lemma_filter_empty, lemma_filter_push, lemma_take_push};
use crate::text::{owned, str_equal};

verus! {

broadcast use vstd::string::group_string_axioms;

/// A saved character profile.
#[derive(Debug)]
pub struct Profile {
    pub name: String,
    pub account: String,
    pub character: String,
    pub game_code: String,
    pub use_lich: bool,
    pub lich_host: Option<String>,
    pub lich_port: Option<u16>,
}

impl Clone for Profile {
    fn clone(&self) -> (r: Self)
        ensures
            r == *self,
    {
        Profile {
            name: self.name.clone(),
            account: self.account.clone(),
            character: self.character.clone(),
            game_code: self.game_code.clone(),
            use_lich: self.use_lich,
            lich_host: clone_opt_string(&self.lich_host),
            lich_port: self.lich_port,
        }
    }
}

/// A copy of an optional string.
pub fn clone_opt_string(s: &Option<String>) -> (r: Option<String>)
    ensures
        r == *s,
{
    match s {
        Some(x) => Some(x.clone()),
        None => None,
    }
}

/// The host a Lich proxy listens on unless a profile names another.
pub open spec fn default_lich_host() -> Seq<char> {
    "127.0.0.1"@
}

/// The port a Lich proxy listens on unless a profile names another.
pub open spec fn default_lich_port() -> u16 {
    8000
}

/// The game a profile is for when its stored form names none.
pub fn default_game_code() -> (r: String)
    ensures
        r@ == "GS3"@,
{
    owned("GS3")
}

impl Profile {
    /// The Lich host: the profile's own, or `127.0.0.1`.
    pub open spec fn spec_lich_host(&self) -> Seq<char> {
        match self.lich_host {
            Some(h) => h@,
            None => default_lich_host(),
        }
    }

    /// The Lich port: the profile's own, or 8000.
    pub open spec fn spec_lich_port(&self) -> u16 {
        match self.lich_port {
            Some(p) => p,
            None => default_lich_port(),
        }
    }

    pub fn lich_host(&self) -> (r: &str)
        ensures
            r@ == self.spec_lich_host(),
    {
        match &self.lich_host {
            Some(h) => h.as_str(),
            None => "127.0.0.1",
        }
    }

    pub fn lich_port(&self) -> (r: u16)
        ensures
            r == self.spec_lich_port(),
    {
        match self.lich_port {
            Some(p) => p,
            None => 8000,
        }
    }
}

/// All saved profiles, in the order they were first saved.
#[derive(Debug)]
pub struct ProfileStore {
    pub profiles: Vec<Profile>,
}

impl Clone for ProfileStore {
    fn clone(&self) -> (r: Self)
        ensures
            r.profiles@ == self.profiles@,
    {
        ProfileStore { profiles: clone_profiles(&self.profiles) }
    }
}

impl Default for ProfileStore {
    fn default() -> (r: Self)
        ensures
            r.profiles@.len() == 0,
    {
        ProfileStore { profiles: Vec::new() }
    }
}

/// A copy of a list of profiles.
pub fn clone_profiles(v: &Vec<Profile>) -> (r: Vec<Profile>)
    ensures
        r@ == v@,
{
    let mut r: Vec<Profile> = Vec::new();
    let mut i: usize = 0;
    while i < v.len()
        invariant
            i <= v.len(),
            r@ == v@.take(i as int),
        decreases v.len() - i,
    {
        proof {
            lemma_take_push(v@, i as int);
        }
        r.push(v[i].clone());
        i = i + 1;
    }
    assert(v@.take(v.len() as int) =~= v@);
    r
}

/// The profiles `s` with `p` saved into them: `p` takes the place of the first
/// profile with the same name, or goes at the end when there is none.
pub open spec fn upsert(s: Seq<Profile>, p: Profile) -> Seq<Profile>
    decreases s.len(),
{
    if s.len() == 0 {
        seq![p]
    } else if s[0].name@ == p.name@ {
        s.update(0, p)
    } else {
        seq![s[0]].add(upsert(s.drop_first(), p))
    }
}

/// The test that keeps a profile when it is not named `name`.
pub open spec fn not_named(name: Seq<char>) -> spec_fn(Profile) -> bool {
    |q: Profile| q.name@ != name
}

/// Saving when the first profile named like `p` stands at `i`.
proof fn lemma_upsert_at(s: Seq<Profile>, p: Profile, i: int)
    requires
        0 <= i < s.len(),
        s[i].name@ == p.name@,
        forall|k: int| 0 <= k < i ==> s[k].name@ != p.name@,
    ensures
        upsert(s, p) == s.update(i, p),
    decreases i,
{
    if i > 0 {
        lemma_upsert_at(s.drop_first(), p, i - 1);
        assert(seq![s[0]].add(s.drop_first().update(i - 1, p)) =~= s.update(i, p));
    }
}

/// Saving when no profile is named like `p`.
proof fn lemma_upsert_absent(s: Seq<Profile>, p: Profile)
    requires
        forall|k: int| 0 <= k < s.len() ==> s[k].name@ != p.name@,
    ensures
        upsert(s, p) == s.push(p),
    decreases s.len(),
{
    if s.len() > 0 {
        lemma_upsert_absent(s.drop_first(), p);
        assert(seq![s[0]].add(s.drop_first().push(p)) =~= s.push(p));
    } else {
        assert(seq![p] =~= s.push(p));
    }
}

/// Saving a profile twice is saving it once.
pub proof fn lemma_upsert_idempotent(s: Seq<Profile>, p: Profile)
    ensures
        upsert(upsert(s, p), p) == upsert(s, p),
    decreases s.len(),
{
    if s.len() == 0 {
        assert(upsert(seq![p], p) =~= seq![p].update(0, p));
        assert(seq![p].update(0, p) =~= seq![p]);
    } else if s[0].name@ == p.name@ {
        assert(s.update(0, p)[0] == p);
        assert(s.update(0, p).update(0, p) =~= s.update(0, p));
    } else {
        lemma_upsert_idempotent(s.drop_first(), p);
        let t = seq![s[0]].add(upsert(s.drop_first(), p));
        assert(t[0] == s[0]);
        assert(t.drop_first() =~= upsert(s.drop_first(), p));
    }
}

/// After saving, the store holds the saved profile.
pub proof fn lemma_upsert_contains(s: Seq<Profile>, p: Profile)
    ensures
        upsert(s, p).contains(p),
    decreases s.len(),
{
    if s.len() == 0 {
        assert(seq![p][0] == p);
    } else if s[0].name@ == p.name@ {
        assert(s.update(0, p)[0] == p);
    } else {
        lemma_upsert_contains(s.drop_first(), p);
        let u = upsert(s.drop_first(), p);
        let j = choose|j: int| 0 <= j < u.len() && u[j] == p;
        assert(seq![s[0]].add(u)[j + 1] == p);
    }
}

/// Filtering a sequence with one more element at the front.
proof fn lemma_filter_prepend(x: Profile, t: Seq<Profile>, name: Seq<char>)
    ensures
        seq![x].add(t).filter(not_named(name)) == (if x.name@ != name {
            seq![x].add(t.filter(not_named(name)))
        } else {
            t.filter(not_named(name))
        }),
{
    Seq::filter_distributes_over_add(seq![x], t, not_named(name));
    let e = Seq::<Profile>::empty();
    lemma_filter_empty(e, not_named(name));
    lemma_filter_push(e, not_named(name), x);
    assert(e.push(x) =~= seq![x]);
    if x.name@ != name {
        assert(e.push(x) == seq![x]);
    } else {
        assert(e + t.filter(not_named(name)) =~= t.filter(not_named(name)));
    }
}

/// Removing a name after saving a profile of that name is removing it from
/// the store as it was before.
pub proof fn lemma_remove_after_upsert(s: Seq<Profile>, p: Profile)
    ensures
        upsert(s, p).filter(not_named(p.name@)) == s.filter(not_named(p.name@)),
    decreases s.len(),
{
    let n = p.name@;
    if s.len() == 0 {
        lemma_filter_empty(s, not_named(n));
        lemma_filter_empty(Seq::<Profile>::empty(), not_named(n));
        lemma_filter_push(Seq::<Profile>::empty(), not_named(n), p);
        assert(Seq::<Profile>::empty().push(p) =~= seq![p]);
    } else if s[0].name@ == n {
        let t = s.drop_first();
        assert(s =~= seq![s[0]].add(t));
        assert(s.update(0, p) =~= seq![p].add(t));
        lemma_filter_prepend(s[0], t, n);
        lemma_filter_prepend(p, t, n);
    } else {
        let t = s.drop_first();
        lemma_remove_after_upsert(t, p);
        assert(s =~= seq![s[0]].add(t));
        lemma_filter_prepend(s[0], t, n);
        lemma_filter_prepend(s[0], upsert(t, p), n);
    }
}

impl ProfileStore {
    /// Saves `profile`: it replaces the first saved profile with the same
    /// name, or is appended when no profile has that name.
    pub fn add_or_update(&mut self, profile: Profile)
        ensures
            final(self).profiles@ == upsert(old(self).profiles@, profile),
    {
        let n = self.profiles.len();
        let mut i: usize = 0;
        while i < n
            invariant
                n == self.profiles.len(),
                self.profiles@ == old(self).profiles@,
                i <= n,
                forall|k: int| 0 <= k < i ==> self.profiles@[k].name@ != profile.name@,
            decreases n - i,
        {
            if self.profiles[i].name == profile.name {
                proof {
                    lemma_upsert_at(self.profiles@, profile, i as int);
                }
                self.profiles.set(i, profile);
                return;
            }
            i = i + 1;
        }
        proof {
            lemma_upsert_absent(self.profiles@, profile);
        }
        self.profiles.push(profile);
    }

    /// Deletes every saved profile named `name`; the others keep their order.
    pub fn remove(&mut self, name: &str)
        ensures
            final(self).profiles@ == old(self).profiles@.filter(not_named(name@)),
    {
        let mut kept: Vec<Profile> = Vec::new();
        let mut i: usize = 0;
        proof {
            lemma_filter_empty(self.profiles@.take(0), not_named(name@));
        }
        while i < self.profiles.len()
            invariant
                self.profiles@ == old(self).profiles@,
                i <= self.profiles.len(),
                kept@ == self.profiles@.take(i as int).filter(not_named(name@)),
            decreases self.profiles.len() - i,
        {
            proof {
                lemma_take_push(self.profiles@, i as int);
                lemma_filter_push(self.profiles@.take(i as int), not_named(name@), self.profiles@[i as int]);
            }
            if !str_equal(self.profiles[i].name.as_str(), name) {
                kept.push(self.profiles[i].clone());
            }
            i = i + 1;
        }
        assert(self.profiles@.take(self.profiles.len() as int) =~= self.profiles@);
        self.profiles = kept;
    }
}

} // verus!
