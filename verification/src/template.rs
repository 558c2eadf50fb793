//! `{{NAME}}` placeholder substitution for shader sources.
//!
//! A template is rendered by replacing, for each variable in turn, every
//! occurrence of `{{key}}` with the variable's value, scanning left to right
//! without overlap (the semantics of `str::replace`).
use vstd::prelude::*;
use crate::text::{chars_of, string_of};
use vstd::string::StringExecFns;

verus! {

broadcast use vstd::string::group_string_axioms;

/// The placeholder `{{key}}` that stands for the variable `key`.
pub open spec fn placeholder(key: Seq<char>) -> Seq<char> {
    seq!['{', '{'] + key + seq!['}', '}']
}

/// Replaces, left to right, every non-overlapping occurrence of `pat` in `s`
/// with `rep` (as `str::replace` does for a non-empty pattern).
pub open spec fn replace_all(s: Seq<char>, pat: Seq<char>, rep: Seq<char>) -> Seq<char>
    decreases s.len(),
{
    if pat.len() == 0 || s.len() < pat.len() {
        s
    } else if s.take(pat.len() as int) == pat {
        rep + replace_all(s.skip(pat.len() as int), pat, rep)
    } else {
        seq![s[0]] + replace_all(s.drop_first(), pat, rep)
    }
}

/// The text obtained from `template` by substituting the variables in
/// `vars`, first to last.
pub open spec fn render_spec(template: Seq<char>, vars: Seq<(Seq<char>, Seq<char>)>) -> Seq<
    char,
>
    decreases vars.len(),
{
    if vars.len() == 0 {
        template
    } else {
        replace_all(
            render_spec(template, vars.drop_last()),
            placeholder(vars.last().0),
            vars.last().1,
        )
    }
}

/// Whether `pat` occurs in `s` starting at `i`.
fn matches_at(s: &Vec<char>, i: usize, pat: &Vec<char>) -> (r: bool)
    requires
        i + pat.len() <= s.len(),
    ensures
        r == (s@.subrange(i as int, i + pat.len()) == pat@),
{
    let mut j: usize = 0;
    while j < pat.len()
        invariant
            j <= pat.len(),
            i + pat.len() <= s.len(),
            forall|t: int| 0 <= t < j ==> s@[i + t] == pat@[t],
        decreases pat.len() - j,
    {
        if s[i + j] != pat[j] {
            assert(s@.subrange(i as int, i + pat.len())[j as int] != pat@[j as int]);
            return false;
        }
        j = j + 1;
    }
    assert(s@.subrange(i as int, i + pat.len()) =~= pat@);
    true
}

/// Appends the characters of `src` to `dst`.
fn extend_chars(dst: &mut Vec<char>, src: &Vec<char>)
    ensures
        final(dst)@ == old(dst)@ + src@,
{
    let mut j: usize = 0;
    while j < src.len()
        invariant
            j <= src.len(),
            dst@ == old(dst)@ + src@.take(j as int),
        decreases src.len() - j,
    {
        dst.push(src[j]);
        j = j + 1;
        assert(src@.take(j as int) == src@.take((j - 1) as int).push(src@[j - 1]));
    }
    assert(src@.take(src.len() as int) == src@);
}

/// `s` with every non-overlapping occurrence of `pat` replaced by `rep`.
fn replace_chars(s: &Vec<char>, pat: &Vec<char>, rep: &Vec<char>) -> (r: Vec<char>)
    requires
        pat.len() > 0,
    ensures
        r@ == replace_all(s@, pat@, rep@),
{
    let mut out: Vec<char> = Vec::new();
    let mut i: usize = 0;
    assert(s@.skip(0) == s@);
    while i < s.len()
        invariant
            i <= s.len(),
            pat.len() > 0,
            out@ + replace_all(s@.skip(i as int), pat@, rep@) == replace_all(s@, pat@, rep@),
        decreases s.len() - i,
    {
        let ghost t = s@.skip(i as int);
        if s.len() - i >= pat.len() && matches_at(s, i, pat) {
            assert(t.take(pat.len() as int) == s@.subrange(i as int, i + pat.len()));
            assert(t.skip(pat.len() as int) == s@.skip(i + pat.len()));
            extend_chars(&mut out, rep);
            i = i + pat.len();
        } else {
            proof {
                if t.len() >= pat.len() {
                    assert(t.take(pat.len() as int) == s@.subrange(i as int, i + pat.len()));
                } else {
                    assert(replace_all(t.drop_first(), pat@, rep@) == t.drop_first());
                    assert(t == seq![t[0]] + t.drop_first());
                }
                assert(t.drop_first() == s@.skip(i + 1));
            }
            out.push(s[i]);
            i = i + 1;
        }
    }
    assert(s@.skip(s.len() as int) =~= Seq::<char>::empty());
    assert(out@ + Seq::<char>::empty() == out@);
    out
}


/// No key occurs twice among `entries`.
pub open spec fn keys_distinct(entries: Seq<(Seq<char>, Seq<char>)>) -> bool {
    forall|i: int, j: int|
        0 <= i < j < entries.len() ==> #[trigger] entries[i].0 != #[trigger] entries[j].0
}

/// The position of the first entry whose key is `key`, or `entries.len()`
/// when there is none.
pub open spec fn find_key(entries: Seq<(Seq<char>, Seq<char>)>, key: Seq<char>) -> int
    decreases entries.len(),
{
    if entries.len() == 0 {
        0
    } else if entries[0].0 == key {
        0
    } else {
        1 + find_key(entries.drop_first(), key)
    }
}

/// `entries` after setting `key` to `value`: the entry with that key takes
/// the new value in place, or a new entry is appended.
pub open spec fn insert_entry(
    entries: Seq<(Seq<char>, Seq<char>)>,
    key: Seq<char>,
    value: Seq<char>,
) -> Seq<(Seq<char>, Seq<char>)> {
    let i = find_key(entries, key);
    if i < entries.len() {
        entries.update(i, (key, value))
    } else {
        entries.push((key, value))
    }
}

/// The map from keys to values that `entries` describe (a later entry wins).
pub open spec fn entries_map(entries: Seq<(Seq<char>, Seq<char>)>) -> Map<Seq<char>, Seq<char>>
    decreases entries.len(),
{
    if entries.len() == 0 {
        Map::empty()
    } else {
        entries_map(entries.drop_last()).insert(entries.last().0, entries.last().1)
    }
}

/// `find_key` is the first position holding the key.
pub proof fn lemma_find_key(entries: Seq<(Seq<char>, Seq<char>)>, key: Seq<char>)
    ensures
        0 <= find_key(entries, key) <= entries.len(),
        find_key(entries, key) < entries.len() ==> entries[find_key(entries, key)].0 == key,
        forall|t: int| 0 <= t < find_key(entries, key) ==> entries[t].0 != key,
    decreases entries.len(),
{
    if entries.len() > 0 && entries[0].0 != key {
        lemma_find_key(entries.drop_first(), key);
        assert forall|t: int| 0 <= t < find_key(entries, key) implies entries[t].0 != key by {
            if t > 0 {
                assert(entries[t] == entries.drop_first()[t - 1]);
            }
        }
    }
}

/// The keys of `entries_map(entries)` are exactly the keys of the entries.
pub proof fn lemma_entries_map_dom(entries: Seq<(Seq<char>, Seq<char>)>, key: Seq<char>)
    ensures
        entries_map(entries).dom().contains(key) <==> exists|i: int|
            0 <= i < entries.len() && #[trigger] entries[i].0 == key,
    decreases entries.len(),
{
    if entries.len() > 0 {
        let init = entries.drop_last();
        lemma_entries_map_dom(init, key);
        if entries_map(entries).dom().contains(key) {
            if key == entries.last().0 {
                assert(entries[entries.len() - 1].0 == key);
            } else {
                let i = choose|i: int| 0 <= i < init.len() && #[trigger] init[i].0 == key;
                assert(entries[i].0 == key);
            }
        }
        if exists|i: int| 0 <= i < entries.len() && #[trigger] entries[i].0 == key {
            let i = choose|i: int| 0 <= i < entries.len() && #[trigger] entries[i].0 == key;
            if i < entries.len() - 1 {
                assert(init[i].0 == key);
            }
        }
    }
}

/// With distinct keys, every entry is found in the map with its own value.
pub proof fn lemma_entries_map_index(entries: Seq<(Seq<char>, Seq<char>)>, i: int)
    requires
        keys_distinct(entries),
        0 <= i < entries.len(),
    ensures
        entries_map(entries).dom().contains(entries[i].0),
        entries_map(entries)[entries[i].0] == entries[i].1,
    decreases entries.len(),
{
    if i < entries.len() - 1 {
        let init = entries.drop_last();
        assert(init[i] == entries[i]);
        assert(keys_distinct(init)) by {
            assert forall|a: int, b: int| 0 <= a < b < init.len() implies #[trigger] init[a].0
                != #[trigger] init[b].0 by {
                assert(init[a] == entries[a] && init[b] == entries[b]);
            }
        }
        lemma_entries_map_index(init, i);
        assert(entries[i].0 != entries[entries.len() - 1].0);
    }
}

/// Setting a key in distinct entries keeps the keys distinct, and acts on
/// the described map as `Map::insert`.
pub proof fn lemma_insert_entry(
    entries: Seq<(Seq<char>, Seq<char>)>,
    key: Seq<char>,
    value: Seq<char>,
)
    requires
        keys_distinct(entries),
    ensures
        keys_distinct(insert_entry(entries, key, value)),
        entries_map(insert_entry(entries, key, value)) == entries_map(entries).insert(key, value),
{
    lemma_find_key(entries, key);
    let i = find_key(entries, key);
    let e2 = insert_entry(entries, key, value);
    if i < entries.len() {
        assert(keys_distinct(e2)) by {
            assert forall|a: int, b: int| 0 <= a < b < e2.len() implies #[trigger] e2[a].0
                != #[trigger] e2[b].0 by {
                assert(e2[a].0 == entries[a].0 && e2[b].0 == entries[b].0);
            }
        }
    } else {
        assert(keys_distinct(e2)) by {
            assert forall|a: int, b: int| 0 <= a < b < e2.len() implies #[trigger] e2[a].0
                != #[trigger] e2[b].0 by {
                if b == entries.len() {
                    assert(entries[a].0 != key);
                } else {
                    assert(e2[a] == entries[a] && e2[b] == entries[b]);
                }
            }
        }
    }
    let m1 = entries_map(e2);
    let m2 = entries_map(entries).insert(key, value);
    let w = if i < entries.len() { i } else { entries.len() as int };
    assert(e2[w].0 == key);
    assert forall|k: Seq<char>| m1.dom().contains(k) <==> m2.dom().contains(k) by {
        lemma_entries_map_dom(e2, k);
        lemma_entries_map_dom(entries, k);
        if k == key {
            assert(e2[w].0 == k);
        }
        if m2.dom().contains(k) && k != key {
            let j = choose|j: int| 0 <= j < entries.len() && #[trigger] entries[j].0 == k;
            assert(j != i);
            assert(e2[j].0 == k);
        }
        if m1.dom().contains(k) {
            let j = choose|j: int| 0 <= j < e2.len() && #[trigger] e2[j].0 == k;
            if k != key {
                assert(j != i && j < entries.len());
                assert(entries[j].0 == k);
            }
        }
    }
    assert forall|k: Seq<char>| #[trigger] m1.dom().contains(k) implies m1[k] == m2[k] by {
        lemma_entries_map_dom(e2, k);
        let j = choose|j: int| 0 <= j < e2.len() && #[trigger] e2[j].0 == k;
        lemma_entries_map_index(e2, j);
        if k != key {
            assert(j < entries.len() && e2[j] == entries[j]);
            lemma_entries_map_index(entries, j);
        }
    }
    assert(m1 =~= m2);
}

/// String pairs taken by their views.
pub open spec fn pairs_view(s: Seq<(String, String)>) -> Seq<(Seq<char>, Seq<char>)> {
    s.map_values(|e: (String, String)| (e.0@, e.1@))
}

/// An insertion-ordered set of template variables: each key at most once,
/// rendered in the order in which the keys were first set.
pub struct TemplateVars {
    entries: Vec<(String, String)>,
}

impl View for TemplateVars {
    type V = Seq<(Seq<char>, Seq<char>)>;

    closed spec fn view(&self) -> Seq<(Seq<char>, Seq<char>)> {
        pairs_view(self.entries@)
    }
}

impl TemplateVars {
    /// Well-formedness, kept by every operation: no key occurs twice.
    #[verifier::type_invariant]
    pub open spec fn wf(&self) -> bool {
        keys_distinct(self@)
    }

    /// The map from keys to values.
    pub open spec fn as_map(&self) -> Map<Seq<char>, Seq<char>> {
        entries_map(self@)
    }

    /// No variables.
    pub fn new() -> (r: TemplateVars)
        ensures
            r@ == Seq::<(Seq<char>, Seq<char>)>::empty(),
    {
        let r = TemplateVars { entries: Vec::new() };
        assert(r@ =~= Seq::<(Seq<char>, Seq<char>)>::empty());
        r
    }

    /// The number of variables.
    pub fn len(&self) -> (r: usize)
        ensures
            r == self@.len(),
    {
        self.entries.len()
    }

    /// The value of `key`, if it is set.
    pub fn get(&self, key: &str) -> (r: Option<&String>)
        ensures
            r is Some <==> self.as_map().dom().contains(key@),
            r matches Some(v) ==> v@ == self.as_map()[key@],
    {
        proof {
            use_type_invariant(self);
        }
        let k = String::from_str(key);
        let mut i: usize = 0;
        while i < self.entries.len()
            invariant
                i <= self.entries.len(),
                self.wf(),
                k@ == key@,
                forall|t: int| 0 <= t < i ==> self@[t].0 != key@,
            decreases self.entries.len() - i,
        {
            if self.entries[i].0 == k {
                proof {
                    lemma_entries_map_index(self@, i as int);
                }
                return Some(&self.entries[i].1);
            }
            i = i + 1;
        }
        proof {
            lemma_entries_map_dom(self@, key@);
        }
        None
    }

    /// Sets `key` to `value`, as `HashMap::insert` does on the map.
    pub fn insert(&mut self, key: &str, value: String)
        ensures
            keys_distinct(final(self)@),
            final(self)@ == insert_entry(old(self)@, key@, value@),
            final(self).as_map() == old(self).as_map().insert(key@, value@),
            (forall|i: int| 0 <= i < old(self)@.len() ==> old(self)@[i].0 != key@)
                ==> final(self)@ == old(self)@.push((key@, value@)),
    {
        proof {
            use_type_invariant(&*self);
        }
        let ghost before = self@;
        let mut entries: Vec<(String, String)> = Vec::new();
        std::mem::swap(&mut entries, &mut self.entries);
        assert(pairs_view(entries@) == before);
        proof {
            lemma_find_key(before, key@);
            lemma_insert_entry(before, key@, value@);
        }
        let k = String::from_str(key);
        let mut i: usize = 0;
        let mut found = false;
        while i < entries.len() && !found
            invariant
                i <= entries.len(),
                pairs_view(entries@) == before,
                k@ == key@,
                forall|t: int| 0 <= t < i ==> before[t].0 != key@,
                found ==> i < entries.len() && before[i as int].0 == key@,
            decreases entries.len() - i + (if found { 0int } else { 1int }),
        {
            if entries[i].0 == k {
                found = true;
            } else {
                i = i + 1;
            }
        }
        proof {
            lemma_find_key(before, key@);
        }
        if found {
            assert(before[i as int].0 == key@);
            assert(find_key(before, key@) == i);
            entries.set(i, (k, value));
            assert(pairs_view(entries@) =~= before.update(i as int, (key@, value@)));
        } else {
            assert(find_key(before, key@) == before.len());
            entries.push((k, value));
            assert(pairs_view(entries@) =~= before.push((key@, value@)));
        }
        self.entries = entries;
    }
}

/// The placeholder `{{key}}` as characters.
fn placeholder_chars(key: &String) -> (r: Vec<char>)
    ensures
        r@ == placeholder(key@),
{
    let mut r: Vec<char> = Vec::new();
    r.push('{');
    r.push('{');
    let k = chars_of(key.as_str());
    extend_chars(&mut r, &k);
    r.push('}');
    r.push('}');
    assert(r@ =~= placeholder(key@));
    r
}

/// Renders `template`: for each variable, first to last, every `{{key}}` is
/// replaced with its value.
pub fn render(template: &str, vars: &TemplateVars) -> (r: String)
    ensures
        r@ == render_spec(template@, vars@),
{
    let mut cur = chars_of(template);
    let mut i: usize = 0;
    assert(vars@.take(0) =~= Seq::<(Seq<char>, Seq<char>)>::empty());
    while i < vars.entries.len()
        invariant
            i <= vars.entries.len(),
            cur@ == render_spec(template@, vars@.take(i as int)),
        decreases vars.entries.len() - i,
    {
        let e = &vars.entries[i];
        let p = placeholder_chars(&e.0);
        let v = chars_of(e.1.as_str());
        cur = replace_chars(&cur, &p, &v);
        i = i + 1;
        assert(vars@.take(i as int).drop_last() =~= vars@.take(i - 1));
        assert(vars@.take(i as int).last() == vars@[i - 1]);
    }
    assert(vars@.take(vars.entries.len() as int) =~= vars@);
    string_of(&cur)
}

} // verus!
