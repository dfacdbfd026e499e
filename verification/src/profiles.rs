//! Named URL profiles, kept in the order of their names.
//!
//! Names are ordered character by character (by code point), which is the
//! order in which Rust orders `String`s: the profiles are listed the way a
//! `BTreeMap<String, String>` would list them.

use vstd::prelude::*;
use crate::text::str_eq;

verus! {

/// Strict lexicographic order on character sequences, by code point.
pub open spec fn lex_lt(a: Seq<char>, b: Seq<char>) -> bool
    decreases a.len(),
{
    if a.len() == 0 {
        b.len() > 0
    } else if b.len() == 0 {
        false
    } else if a[0] != b[0] {
        a[0] < b[0]
    } else {
        lex_lt(a.drop_first(), b.drop_first())
    }
}

pub proof fn lemma_lex_irreflexive(a: Seq<char>)
    ensures
        !lex_lt(a, a),
    decreases a.len(),
{
    if a.len() > 0 {
        lemma_lex_irreflexive(a.drop_first());
    }
}

pub proof fn lemma_lex_transitive(a: Seq<char>, b: Seq<char>, c: Seq<char>)
    requires
        lex_lt(a, b),
        lex_lt(b, c),
    ensures
        lex_lt(a, c),
    decreases a.len(),
{
    if a.len() > 0 && b.len() > 0 && c.len() > 0 {
        if a[0] == b[0] && b[0] == c[0] {
            lemma_lex_transitive(a.drop_first(), b.drop_first(), c.drop_first());
        }
    }
}

pub proof fn lemma_lex_total(a: Seq<char>, b: Seq<char>)
    requires
        a != b,
    ensures
        lex_lt(a, b) || lex_lt(b, a),
    decreases a.len(),
{
    if a.len() > 0 && b.len() > 0 && a[0] == b[0] {
        if a.drop_first() == b.drop_first() {
            assert(a =~= seq![a[0]] + a.drop_first());
            assert(b =~= seq![b[0]] + b.drop_first());
        }
        lemma_lex_total(a.drop_first(), b.drop_first());
    } else if a.len() == 0 && b.len() == 0 {
        assert(a =~= b);
    } else if a.len() > 0 && b.len() > 0 {
        assert(a[0] < b[0] || b[0] < a[0]);
    }
}

pub proof fn lemma_lex_asymmetric(a: Seq<char>, b: Seq<char>)
    requires
        lex_lt(a, b),
    ensures
        !lex_lt(b, a),
{
    if lex_lt(b, a) {
        lemma_lex_transitive(a, b, a);
        lemma_lex_irreflexive(a);
    }
}

/// Whether `a` comes strictly before `b`.
pub fn chars_lt(a: &[char], b: &[char]) -> (r: bool)
    ensures
        r == lex_lt(a@, b@),
{
    let mut i: usize = 0;
    assert(a@.subrange(0, a@.len() as int) == a@);
    assert(b@.subrange(0, b@.len() as int) == b@);
    while i < a.len() && i < b.len() && a[i] == b[i]
        invariant
            i <= a@.len(),
            i <= b@.len(),
            lex_lt(a@, b@) == lex_lt(a@.subrange(i as int, a@.len() as int), b@.subrange(
                i as int,
                b@.len() as int,
            )),
        decreases a@.len() - i,
    {
        proof {
            let x = a@.subrange(i as int, a@.len() as int);
            let y = b@.subrange(i as int, b@.len() as int);
            assert(x.drop_first() == a@.subrange(i + 1, a@.len() as int));
            assert(y.drop_first() == b@.subrange(i + 1, b@.len() as int));
        }
        i += 1;
    }
    if i == a.len() {
        i < b.len()
    } else if i == b.len() {
        false
    } else {
        a[i] < b[i]
    }
}

/// One named URL.
pub struct Profile {
    pub name: String,
    pub url: String,
}

impl Profile {
    pub open spec fn view(&self) -> (Seq<char>, Seq<char>) {
        (self.name@, self.url@)
    }
}

/// A profile that was stored is read back with the URL stored last, and a
/// removed profile is gone; other profiles are untouched by either.
pub proof fn law_profiles_read_back(
    m: Map<Seq<char>, Seq<char>>,
    name: Seq<char>,
    url: Seq<char>,
    other: Seq<char>,
)
    ensures
        m.insert(name, url).contains_key(name),
        m.insert(name, url)[name] == url,
        !m.remove(name).contains_key(name),
        other != name ==> m.insert(name, url).contains_key(other) == m.contains_key(other),
        other != name ==> m.remove(name).contains_key(other) == m.contains_key(other),
        other != name && m.contains_key(other) ==> m.insert(name, url)[other] == m[other]
            && m.remove(name)[other] == m[other],
{
}

/// A set of named URLs, at most one per name, in the order of the names.
pub struct ProfileMap {
    entries: Vec<Profile>,
}

/// Whether the names in `s` are strictly increasing.
pub open spec fn names_sorted(s: Seq<(Seq<char>, Seq<char>)>) -> bool {
    forall|i: int, j: int| 0 <= i < j < s.len() ==> lex_lt(#[trigger] s[i].0, #[trigger] s[j].0)
}

/// Profiles listed in name order list each name once.
pub proof fn law_sorted_names_distinct(s: Seq<(Seq<char>, Seq<char>)>)
    requires
        names_sorted(s),
    ensures
        forall|i: int, j: int| 0 <= i < j < s.len() ==> s[i].0 != s[j].0,
{
    assert forall|i: int, j: int| 0 <= i < j < s.len() implies s[i].0 != s[j].0 by {
        assert(lex_lt(s[i].0, s[j].0));
        if s[i].0 == s[j].0 {
            lemma_lex_irreflexive(s[i].0);
        }
    }
}

/// The map from names to URLs that the entries `s` hold.
pub open spec fn entries_map(s: Seq<(Seq<char>, Seq<char>)>) -> Map<Seq<char>, Seq<char>>
    decreases s.len(),
{
    if s.len() == 0 {
        Map::empty()
    } else {
        entries_map(s.drop_last()).insert(s.last().0, s.last().1)
    }
}

pub proof fn lemma_entries_map_index(s: Seq<(Seq<char>, Seq<char>)>, i: int)
    requires
        names_sorted(s),
        0 <= i < s.len(),
    ensures
        entries_map(s).contains_key(s[i].0),
        entries_map(s)[s[i].0] == s[i].1,
    decreases s.len(),
{
    if i < s.len() - 1 {
        assert(lex_lt(s[i].0, s[s.len() - 1].0));
        lemma_lex_irreflexive(s[i].0);
        assert(names_sorted(s.drop_last()));
        lemma_entries_map_index(s.drop_last(), i);
    }
}

pub proof fn lemma_entries_map_keys(s: Seq<(Seq<char>, Seq<char>)>, k: Seq<char>)
    ensures
        entries_map(s).contains_key(k) <==> exists|i: int| 0 <= i < s.len() && #[trigger] s[i].0
            == k,
    decreases s.len(),
{
    if s.len() > 0 {
        lemma_entries_map_keys(s.drop_last(), k);
        if entries_map(s.drop_last()).contains_key(k) {
            let i = choose|i: int| 0 <= i < s.drop_last().len() && #[trigger] s.drop_last()[i].0 == k;
            assert(s[i].0 == k);
        }
        if exists|i: int| 0 <= i < s.len() && #[trigger] s[i].0 == k {
            let i = choose|i: int| 0 <= i < s.len() && #[trigger] s[i].0 == k;
            if i < s.len() - 1 {
                assert(s.drop_last()[i].0 == k);
            }
        }
    }
}

impl ProfileMap {
    /// The entries, as (name, URL) pairs in order.
    pub closed spec fn view(&self) -> Seq<(Seq<char>, Seq<char>)> {
        self.entries@.map_values(|p: Profile| p@)
    }

    /// The entries as a map from names to URLs.
    pub open spec fn as_map(&self) -> Map<Seq<char>, Seq<char>> {
        entries_map(self@)
    }

    /// The names, in order.
    pub open spec fn names(&self) -> Seq<Seq<char>> {
        self@.map_values(|e: (Seq<char>, Seq<char>)| e.0)
    }

    #[verifier::type_invariant]
    closed spec fn sorted(&self) -> bool {
        names_sorted(self@)
    }

    pub fn new() -> (m: ProfileMap)
        ensures
            m@ == Seq::<(Seq<char>, Seq<char>)>::empty(),
            m.as_map() == Map::<Seq<char>, Seq<char>>::empty(),
    {
        let m = ProfileMap { entries: Vec::new() };
        assert(m@ =~= Seq::<(Seq<char>, Seq<char>)>::empty());
        assert(m.as_map() =~= Map::<Seq<char>, Seq<char>>::empty());
        m
    }

    /// The number of profiles; the names are strictly increasing.
    pub fn len(&self) -> (n: usize)
        ensures
            n == self@.len(),
            names_sorted(self@),
    {
        proof {
            use_type_invariant(self);
        }
        self.entries.len()
    }

    pub fn is_empty(&self) -> (b: bool)
        ensures
            b == (self@.len() == 0),
    {
        self.entries.len() == 0
    }

    /// The name of the `i`-th entry.
    pub fn name_at(&self, i: usize) -> (r: &String)
        requires
            i < self@.len(),
        ensures
            r@ == self@[i as int].0,
    {
        &self.entries[i].name
    }

    /// The URL of the `i`-th entry.
    pub fn url_at(&self, i: usize) -> (r: &String)
        requires
            i < self@.len(),
        ensures
            r@ == self@[i as int].1,
    {
        &self.entries[i].url
    }

    /// The position of `name`, if it is present.
    pub fn position(&self, name: &str) -> (r: Option<usize>)
        ensures
            match r {
                Some(i) => i < self@.len() && self@[i as int].0 == name@,
                None => forall|i: int| 0 <= i < self@.len() ==> #[trigger] self@[i].0 != name@,
            },
    {
        let mut i: usize = 0;
        while i < self.entries.len()
            invariant
                i <= self@.len(),
                self@.len() == self.entries@.len(),
                forall|j: int| 0 <= j < i ==> #[trigger] self@[j].0 != name@,
            decreases self@.len() - i,
        {
            if str_eq(self.entries[i].name.as_str(), name) {
                return Some(i);
            }
            i += 1;
        }
        None
    }

    pub fn contains_key(&self, name: &str) -> (b: bool)
        ensures
            b == self.as_map().contains_key(name@),
    {
        proof {
            lemma_entries_map_keys(self@, name@);
        }
        match self.position(name) {
            Some(i) => {
                assert(self@[i as int].0 == name@);
                true
            },
            None => false,
        }
    }

    /// The URL stored under `name`.
    pub fn get(&self, name: &str) -> (r: Option<&String>)
        ensures
            match r {
                Some(u) => self.as_map().contains_key(name@) && self.as_map()[name@] == u@,
                None => !self.as_map().contains_key(name@),
            },
    {
        proof {
            use_type_invariant(self);
            lemma_entries_map_keys(self@, name@);
        }
        match self.position(name) {
            Some(i) => {
                proof {
                    lemma_entries_map_index(self@, i as int);
                }
                Some(&self.entries[i].url)
            },
            None => None,
        }
    }

    /// Stores `url` under `name`, replacing the URL that was there.
    pub fn insert(&mut self, name: String, url: String)
        ensures
            final(self).as_map() == old(self).as_map().insert(name@, url@),
            names_sorted(final(self)@),
    {
        proof {
            use_type_invariant(&*self);
        }
        let mut v: Vec<Profile> = Vec::new();
        std::mem::swap(&mut v, &mut self.entries);
        let ghost old_s = v@.map_values(|p: Profile| p@);
        assert(old_s == old(self)@);
        let mut i: usize = 0;
        while i < v.len() && chars_lt(
            crate::text::chars_of(v[i].name.as_str()).as_slice(),
            crate::text::chars_of(name.as_str()).as_slice(),
        )
            invariant
                i <= v@.len(),
                old_s == v@.map_values(|p: Profile| p@),
                names_sorted(old_s),
                forall|j: int| 0 <= j < i ==> lex_lt(#[trigger] old_s[j].0, name@),
            decreases v@.len() - i,
        {
            i += 1;
        }
        let same = i < v.len() && str_eq(v[i].name.as_str(), name.as_str());
        let ghost new_s: Seq<(Seq<char>, Seq<char>)>;
        if same {
            let p = Profile { name, url };
            v.set(i, p);
            proof {
                new_s = old_s.update(i as int, (name@, url@));
                assert(v@.map_values(|p: Profile| p@) =~= new_s);
                assert forall|x: int, y: int| 0 <= x < y < new_s.len() implies lex_lt(
                    #[trigger] new_s[x].0,
                    #[trigger] new_s[y].0,
                ) by {
                    assert(new_s[x].0 == old_s[x].0);
                    assert(new_s[y].0 == old_s[y].0);
                }
                lemma_update_map(old_s, i as int, name@, url@);
            }
        } else {
            proof {
                if i < v@.len() {
                    assert(old_s[i as int].0 != name@);
                    lemma_lex_total(old_s[i as int].0, name@);
                }
            }
            let p = Profile { name, url };
            v.insert(i, p);
            proof {
                new_s = old_s.insert(i as int, (name@, url@));
                assert(v@.map_values(|p: Profile| p@) =~= new_s);
                assert forall|a: int, b: int| 0 <= a < b < new_s.len() implies lex_lt(
                    #[trigger] new_s[a].0,
                    #[trigger] new_s[b].0,
                ) by {
                    if a < i && b == i {
                    } else if a < i && b > i {
                        assert(new_s[b] == old_s[b - 1]);
                    } else if a == i && b > i {
                        assert(new_s[b] == old_s[b - 1]);
                        if b - 1 > i {
                            lemma_lex_transitive(name@, old_s[i as int].0, old_s[b - 1].0);
                        }
                    } else if a > i {
                        assert(new_s[a] == old_s[a - 1]);
                        assert(new_s[b] == old_s[b - 1]);
                    }
                }
                lemma_insert_map(old_s, i as int, name@, url@);
            }
        }
        std::mem::swap(&mut v, &mut self.entries);
        assert(self@ == new_s);
    }

    /// Removes the entry of `name`, if there is one.
    pub fn remove(&mut self, name: &str)
        ensures
            final(self).as_map() == old(self).as_map().remove(name@),
            names_sorted(final(self)@),
    {
        proof {
            use_type_invariant(&*self);
        }
        match self.position(name) {
            Some(i) => {
                let mut v: Vec<Profile> = Vec::new();
                std::mem::swap(&mut v, &mut self.entries);
                let ghost old_s = v@.map_values(|p: Profile| p@);
                v.remove(i);
                let ghost new_s = old_s.remove(i as int);
                proof {
                    assert(v@.map_values(|p: Profile| p@) =~= new_s);
                    assert forall|a: int, b: int| 0 <= a < b < new_s.len() implies lex_lt(
                        #[trigger] new_s[a].0,
                        #[trigger] new_s[b].0,
                    ) by {
                        if a >= i {
                            assert(new_s[a] == old_s[a + 1]);
                        }
                        if b >= i {
                            assert(new_s[b] == old_s[b + 1]);
                        }
                    }
                    lemma_remove_map(old_s, i as int);
                }
                std::mem::swap(&mut v, &mut self.entries);
                assert(self@ == new_s);
            },
            None => {
                proof {
                    lemma_entries_map_keys(self@, name@);
                    assert(self.as_map().remove(name@) =~= self.as_map());
                }
            },
        }
    }
}

proof fn lemma_map_ext(s: Seq<(Seq<char>, Seq<char>)>, m: Map<Seq<char>, Seq<char>>)
    requires
        names_sorted(s),
        forall|k: Seq<char>| m.contains_key(k) <==> exists|i: int| 0 <= i < s.len() && #[trigger] s[i].0 == k,
        forall|i: int| 0 <= i < s.len() ==> m[#[trigger] s[i].0] == s[i].1,
    ensures
        entries_map(s) == m,
{
    assert forall|k: Seq<char>| entries_map(s).contains_key(k) <==> m.contains_key(k) by {
        lemma_entries_map_keys(s, k);
    }
    assert forall|k: Seq<char>| #[trigger] entries_map(s).contains_key(k) implies entries_map(s)[k] == m[k] by {
        lemma_entries_map_keys(s, k);
        let i = choose|i: int| 0 <= i < s.len() && #[trigger] s[i].0 == k;
        lemma_entries_map_index(s, i);
    }
    assert(entries_map(s) =~= m);
}

proof fn lemma_update_map(s: Seq<(Seq<char>, Seq<char>)>, i: int, k: Seq<char>, v: Seq<char>)
    requires
        names_sorted(s),
        0 <= i < s.len(),
        s[i].0 == k,
    ensures
        entries_map(s.update(i, (k, v))) == entries_map(s).insert(k, v),
{
    let t = s.update(i, (k, v));
    assert(names_sorted(t));
    let m = entries_map(s).insert(k, v);
    assert forall|key: Seq<char>| m.contains_key(key) <==> exists|j: int| 0 <= j < t.len() && #[trigger] t[j].0 == key by {
        lemma_entries_map_keys(s, key);
        if exists|j: int| 0 <= j < s.len() && #[trigger] s[j].0 == key {
            let j = choose|j: int| 0 <= j < s.len() && #[trigger] s[j].0 == key;
            assert(t[j].0 == key);
        }
        if exists|j: int| 0 <= j < t.len() && #[trigger] t[j].0 == key {
            let j = choose|j: int| 0 <= j < t.len() && #[trigger] t[j].0 == key;
            assert(s[j].0 == key);
        }
    }
    assert forall|j: int| 0 <= j < t.len() implies m[#[trigger] t[j].0] == t[j].1 by {
        if j != i {
            lemma_entries_map_index(s, j);
            assert(lex_lt(s[j].0, s[i].0) || lex_lt(s[i].0, s[j].0));
            lemma_lex_irreflexive(k);
        }
    }
    lemma_map_ext(t, m);
}

proof fn lemma_insert_map(s: Seq<(Seq<char>, Seq<char>)>, i: int, k: Seq<char>, v: Seq<char>)
    requires
        names_sorted(s),
        names_sorted(s.insert(i, (k, v))),
        0 <= i <= s.len(),
    ensures
        entries_map(s.insert(i, (k, v))) == entries_map(s).insert(k, v),
{
    let t = s.insert(i, (k, v));
    let m = entries_map(s).insert(k, v);
    assert forall|key: Seq<char>| m.contains_key(key) <==> exists|j: int| 0 <= j < t.len() && #[trigger] t[j].0 == key by {
        lemma_entries_map_keys(s, key);
        if exists|j: int| 0 <= j < s.len() && #[trigger] s[j].0 == key {
            let j = choose|j: int| 0 <= j < s.len() && #[trigger] s[j].0 == key;
            if j < i {
                assert(t[j].0 == key);
            } else {
                assert(t[j + 1].0 == key);
            }
        }
        if key == k {
            assert(t[i].0 == key);
        }
        if exists|j: int| 0 <= j < t.len() && #[trigger] t[j].0 == key {
            let j = choose|j: int| 0 <= j < t.len() && #[trigger] t[j].0 == key;
            if j < i {
                assert(s[j].0 == key);
            } else if j > i {
                assert(s[j - 1].0 == key);
            }
        }
    }
    assert forall|j: int| 0 <= j < t.len() implies m[#[trigger] t[j].0] == t[j].1 by {
        if j < i {
            lemma_entries_map_index(s, j);
            assert(lex_lt(t[j].0, t[i].0));
            lemma_lex_irreflexive(k);
        } else if j > i {
            lemma_entries_map_index(s, j - 1);
            assert(lex_lt(t[i].0, t[j].0));
            lemma_lex_irreflexive(k);
        }
    }
    lemma_map_ext(t, m);
}

proof fn lemma_remove_map(s: Seq<(Seq<char>, Seq<char>)>, i: int)
    requires
        names_sorted(s),
        0 <= i < s.len(),
    ensures
        entries_map(s.remove(i)) == entries_map(s).remove(s[i].0),
{
    let t = s.remove(i);
    let k = s[i].0;
    assert(names_sorted(t)) by {
        assert forall|a: int, b: int| 0 <= a < b < t.len() implies lex_lt(
            #[trigger] t[a].0,
            #[trigger] t[b].0,
        ) by {
            if a >= i {
                assert(t[a] == s[a + 1]);
            }
            if b >= i {
                assert(t[b] == s[b + 1]);
            }
        }
    }
    let m = entries_map(s).remove(k);
    assert forall|key: Seq<char>| m.contains_key(key) <==> exists|j: int| 0 <= j < t.len() && #[trigger] t[j].0 == key by {
        lemma_entries_map_keys(s, key);
        if key != k && exists|j: int| 0 <= j < s.len() && #[trigger] s[j].0 == key {
            let j = choose|j: int| 0 <= j < s.len() && #[trigger] s[j].0 == key;
            if j < i {
                assert(t[j].0 == key);
            } else {
                assert(j != i);
                assert(t[j - 1].0 == key);
            }
        }
        if exists|j: int| 0 <= j < t.len() && #[trigger] t[j].0 == key {
            let j = choose|j: int| 0 <= j < t.len() && #[trigger] t[j].0 == key;
            if j < i {
                assert(s[j].0 == key);
                assert(lex_lt(s[j].0, s[i].0));
                lemma_lex_irreflexive(key);
            } else {
                assert(s[j + 1].0 == key);
                assert(lex_lt(s[i].0, s[j + 1].0));
                lemma_lex_irreflexive(key);
            }
        }
    }
    assert forall|j: int| 0 <= j < t.len() implies m[#[trigger] t[j].0] == t[j].1 by {
        if j < i {
            lemma_entries_map_index(s, j);
            assert(lex_lt(s[j].0, s[i].0));
            lemma_lex_irreflexive(k);
        } else {
            lemma_entries_map_index(s, j + 1);
            assert(lex_lt(s[i].0, s[j + 1].0));
            lemma_lex_irreflexive(k);
        }
    }
    lemma_map_ext(t, m);
}

} // verus!
