//! What rendering does to a well-formed template.
//!
//! A well-formed template is a sequence of pieces: runs of text without
//! braces, and placeholders `{{key}}` whose key has no braces. Rendering
//! such a template with variables whose keys and values have no braces
//! replaces exactly the placeholders of the keys that are set, each with its
//! value; so the result depends only on the map of variables, not on the
//! order in which they are applied.
use vstd::prelude::*;
use crate::template::{
    entries_map, keys_distinct, lemma_entries_map_dom, lemma_entries_map_index, placeholder,
    render_spec, replace_all,
};

verus! {

/// A piece of a template.
pub enum Piece {
    /// Text taken as it is.
    Text(Seq<char>),
    /// The placeholder `{{key}}`.
    Hole(Seq<char>),
}

/// `s` holds neither `{` nor `}`.
pub open spec fn brace_free(s: Seq<char>) -> bool {
    forall|i: int| 0 <= i < s.len() ==> #[trigger] s[i] != '{' && s[i] != '}'
}

/// `s` holds no `{`.
pub open spec fn no_open_brace(s: Seq<char>) -> bool {
    forall|i: int| 0 <= i < s.len() ==> #[trigger] s[i] != '{'
}

/// Text without braces, or a placeholder whose key has none.
pub open spec fn piece_wf(p: Piece) -> bool {
    match p {
        Piece::Text(t) => brace_free(t),
        Piece::Hole(k) => brace_free(k),
    }
}

/// Every piece is well formed.
pub open spec fn pieces_wf(ps: Seq<Piece>) -> bool {
    forall|i: int| 0 <= i < ps.len() ==> #[trigger] piece_wf(ps[i])
}

/// The characters of a piece.
pub open spec fn piece_text(p: Piece) -> Seq<char> {
    match p {
        Piece::Text(t) => t,
        Piece::Hole(k) => placeholder(k),
    }
}

/// The characters of a template given as pieces.
pub open spec fn flatten(ps: Seq<Piece>) -> Seq<char>
    decreases ps.len(),
{
    if ps.len() == 0 {
        Seq::empty()
    } else {
        piece_text(ps[0]) + flatten(ps.drop_first())
    }
}

/// A placeholder whose key `m` sets becomes the value as text.
pub open spec fn fill_piece(p: Piece, m: Map<Seq<char>, Seq<char>>) -> Piece {
    match p {
        Piece::Hole(k) => if m.dom().contains(k) {
            Piece::Text(m[k])
        } else {
            p
        },
        Piece::Text(_) => p,
    }
}

/// Every placeholder whose key `m` sets replaced by its value.
pub open spec fn fill(ps: Seq<Piece>, m: Map<Seq<char>, Seq<char>>) -> Seq<Piece> {
    ps.map_values(|p: Piece| fill_piece(p, m))
}

/// Keys and values of `vars` hold no braces.
pub open spec fn vars_brace_free(vars: Seq<(Seq<char>, Seq<char>)>) -> bool {
    forall|i: int| 0 <= i < vars.len() ==> brace_free(#[trigger] vars[i].0) && brace_free(vars[i].1)
}

/// Text without `{` passes through a replacement of a pattern that starts
/// with `{` unchanged.
proof fn lemma_replace_skips_text(a: Seq<char>, b: Seq<char>, p: Seq<char>, r: Seq<char>)
    requires
        p.len() > 0,
        p[0] == '{',
        no_open_brace(a),
    ensures
        replace_all(a + b, p, r) == a + replace_all(b, p, r),
    decreases a.len(),
{
    if a.len() > 0 {
        let s = a + b;
        if s.len() < p.len() {
            assert(replace_all(b, p, r) == b);
        } else {
            assert(s.take(p.len() as int)[0] != p[0]);
            assert(s.drop_first() =~= a.drop_first() + b);
            lemma_replace_skips_text(a.drop_first(), b, p, r);
            assert(a =~= seq![a[0]] + a.drop_first());
        }
    } else {
        assert(a + b =~= b);
    }
}

/// A placeholder of one brace-free key does not start with the placeholder
/// of another.
proof fn lemma_placeholder_prefix(j: Seq<char>, k: Seq<char>, x: Seq<char>)
    requires
        brace_free(j),
        brace_free(k),
        j != k,
        (placeholder(j) + x).len() >= placeholder(k).len(),
    ensures
        (placeholder(j) + x).take(placeholder(k).len() as int) != placeholder(k),
{
    let s = placeholder(j) + x;
    let pk = placeholder(k);
    if s.take(pk.len() as int) == pk {
        let jl = j.len() as int;
        let kl = k.len() as int;
        if j.len() < k.len() {
            assert(s[2 + jl] == '}');
            assert(pk[2 + jl] == k[jl]);
            assert(s.take(pk.len() as int)[2 + jl] == s[2 + jl]);
        } else if j.len() > k.len() {
            assert(s[2 + kl] == j[kl]);
            assert(pk[2 + kl] == '}');
            assert(s.take(pk.len() as int)[2 + kl] == s[2 + kl]);
        } else {
            assert forall|i: int| 0 <= i < j.len() implies j[i] == k[i] by {
                assert(s[2 + i] == j[i]);
                assert(pk[2 + i] == k[i]);
                assert(s.take(pk.len() as int)[2 + i] == s[2 + i]);
            }
            assert(j =~= k);
        }
    }
}

/// The placeholder of another key passes through a replacement unchanged.
proof fn lemma_replace_skips_other_hole(j: Seq<char>, k: Seq<char>, x: Seq<char>, r: Seq<char>)
    requires
        brace_free(j),
        brace_free(k),
        j != k,
    ensures
        replace_all(placeholder(j) + x, placeholder(k), r) == placeholder(j) + replace_all(
            x,
            placeholder(k),
            r,
        ),
{
    let p = placeholder(k);
    let s = placeholder(j) + x;
    let tail = j + seq!['}', '}'];
    assert(no_open_brace(tail)) by {
        assert forall|i: int| 0 <= i < tail.len() implies #[trigger] tail[i] != '{' by {
            if i < j.len() {
                assert(tail[i] == j[i]);
            }
        }
    }
    assert(s =~= seq!['{'] + (seq!['{'] + (tail + x)));
    if s.len() < p.len() {
        assert(replace_all(x, p, r) == x);
    } else {
        lemma_placeholder_prefix(j, k, x);
        let s1 = seq!['{'] + (tail + x);
        assert(s.drop_first() =~= s1);
        assert(s[0] == '{');
        assert(replace_all(s, p, r) == seq![s[0]] + replace_all(s1, p, r));
        assert(placeholder(j) =~= seq!['{'] + (seq!['{'] + tail));
        if s1.len() < p.len() {
            assert(replace_all(x, p, r) == x);
            assert(replace_all(s1, p, r) == s1);
            assert(replace_all(s, p, r) =~= s);
        } else {
            assert(s1[1] != '{') by {
                if j.len() > 0 {
                    assert(s1[1] == j[0]);
                } else {
                    assert(s1[1] == '}');
                }
            }
            assert(s1.take(p.len() as int)[1] != p[1]);
            assert(s1.drop_first() =~= tail + x);
            assert(s1[0] == '{');
            assert(replace_all(s1, p, r) == seq![s1[0]] + replace_all(tail + x, p, r));
            lemma_replace_skips_text(tail, x, p, r);
            assert(replace_all(s, p, r) =~= seq!['{'] + (seq!['{'] + (tail + replace_all(
                x,
                p,
                r,
            ))));
            assert(placeholder(j) + replace_all(x, p, r) =~= seq!['{'] + (seq!['{'] + (tail
                + replace_all(x, p, r))));
        }
    }
}

/// Replacing the placeholder of a brace-free key by a brace-free value in a
/// well-formed template fills exactly the holes of that key.
pub proof fn lemma_replace_fills(ps: Seq<Piece>, k: Seq<char>, r: Seq<char>)
    requires
        pieces_wf(ps),
        brace_free(k),
        brace_free(r),
    ensures
        replace_all(flatten(ps), placeholder(k), r) == flatten(
            fill(ps, Map::<Seq<char>, Seq<char>>::empty().insert(k, r)),
        ),
    decreases ps.len(),
{
    let m = Map::<Seq<char>, Seq<char>>::empty().insert(k, r);
    let p = placeholder(k);
    if ps.len() == 0 {
        assert(fill(ps, m) =~= Seq::<Piece>::empty());
    } else {
        let rest = ps.drop_first();
        assert(pieces_wf(rest)) by {
            assert forall|i: int| 0 <= i < rest.len() implies #[trigger] piece_wf(rest[i]) by {
                assert(rest[i] == ps[i + 1]);
            }
        }
        lemma_replace_fills(rest, k, r);
        let f = fill(ps, m);
        assert(f.drop_first() =~= fill(rest, m));
        assert(f[0] == fill_piece(ps[0], m));
        assert(piece_wf(ps[0]));
        assert(flatten(ps) == piece_text(ps[0]) + flatten(rest));
        assert(flatten(f) == piece_text(f[0]) + flatten(f.drop_first()));
        match ps[0] {
            Piece::Text(t) => {
                assert(no_open_brace(t));
                lemma_replace_skips_text(t, flatten(rest), p, r);
            },
            Piece::Hole(j) => {
                if j == k {
                    let s = flatten(ps);
                    assert(s.take(p.len() as int) =~= p);
                    assert(s.skip(p.len() as int) =~= flatten(rest));
                } else {
                    lemma_replace_skips_other_hole(j, k, flatten(rest), r);
                }
            },
        }
    }
}

/// Filling with `m`, then with one more key, is filling with `m` extended
/// by that key.
proof fn lemma_fill_insert(ps: Seq<Piece>, m: Map<Seq<char>, Seq<char>>, k: Seq<char>, r: Seq<char>)
    requires
        !m.dom().contains(k),
    ensures
        fill(fill(ps, m), Map::<Seq<char>, Seq<char>>::empty().insert(k, r)) == fill(
            ps,
            m.insert(k, r),
        ),
{
    let one = Map::<Seq<char>, Seq<char>>::empty().insert(k, r);
    assert(fill(fill(ps, m), one) =~= fill(ps, m.insert(k, r)));
}

/// Filling a well-formed template with brace-free values keeps it well
/// formed.
proof fn lemma_fill_wf(ps: Seq<Piece>, m: Map<Seq<char>, Seq<char>>)
    requires
        pieces_wf(ps),
        forall|key: Seq<char>| #[trigger] m.dom().contains(key) ==> brace_free(m[key]),
    ensures
        pieces_wf(fill(ps, m)),
{
    assert forall|i: int| 0 <= i < fill(ps, m).len() implies #[trigger] piece_wf(
        fill(ps, m)[i],
    ) by {
        assert(piece_wf(ps[i]));
    }
}

/// Rendering a well-formed template with distinct brace-free variables
/// replaces each placeholder whose key is set by that key's value and leaves
/// every other piece as it is.
pub proof fn lemma_render_fills(ps: Seq<Piece>, vars: Seq<(Seq<char>, Seq<char>)>)
    requires
        pieces_wf(ps),
        keys_distinct(vars),
        vars_brace_free(vars),
    ensures
        render_spec(flatten(ps), vars) == flatten(fill(ps, entries_map(vars))),
    decreases vars.len(),
{
    if vars.len() == 0 {
        assert(fill(ps, entries_map(vars)) =~= ps) by {
            assert forall|i: int| 0 <= i < ps.len() implies fill(ps, entries_map(vars))[i]
                == ps[i] by {
                match ps[i] {
                    Piece::Hole(k) => {
                        assert(!entries_map(vars).dom().contains(k));
                    },
                    Piece::Text(_) => {},
                }
            }
        }
    } else {
        let init = vars.drop_last();
        let (k, v) = vars.last();
        assert(keys_distinct(init)) by {
            assert forall|a: int, b: int| 0 <= a < b < init.len() implies #[trigger] init[a].0
                != #[trigger] init[b].0 by {
                assert(init[a] == vars[a] && init[b] == vars[b]);
            }
        }
        assert(vars_brace_free(init)) by {
            assert forall|i: int| 0 <= i < init.len() implies brace_free(#[trigger] init[i].0)
                && brace_free(init[i].1) by {
                assert(init[i] == vars[i]);
            }
        }
        lemma_render_fills(ps, init);
        let m = entries_map(init);
        assert forall|key: Seq<char>| #[trigger] m.dom().contains(key) implies brace_free(
            m[key],
        ) by {
            lemma_entries_map_dom(init, key);
            let i = choose|i: int| 0 <= i < init.len() && #[trigger] init[i].0 == key;
            lemma_entries_map_index(init, i);
        }
        lemma_fill_wf(ps, m);
        assert(brace_free(k) && brace_free(v)) by {
            assert(vars[vars.len() - 1] == vars.last());
        }
        lemma_replace_fills(fill(ps, m), k, v);
        assert(!m.dom().contains(k)) by {
            lemma_entries_map_dom(init, k);
            if m.dom().contains(k) {
                let i = choose|i: int| 0 <= i < init.len() && #[trigger] init[i].0 == k;
                assert(vars[i].0 == vars[vars.len() - 1].0);
            }
        }
        lemma_fill_insert(ps, m, k, v);
    }
}

/// Rendering a well-formed template does not depend on the order of the
/// variables: two lists of distinct brace-free variables that describe the
/// same map render it alike.
pub proof fn lemma_render_order_independent(
    ps: Seq<Piece>,
    vars1: Seq<(Seq<char>, Seq<char>)>,
    vars2: Seq<(Seq<char>, Seq<char>)>,
)
    requires
        pieces_wf(ps),
        keys_distinct(vars1),
        keys_distinct(vars2),
        vars_brace_free(vars1),
        vars_brace_free(vars2),
        entries_map(vars1) == entries_map(vars2),
    ensures
        render_spec(flatten(ps), vars1) == render_spec(flatten(ps), vars2),
{
    lemma_render_fills(ps, vars1);
    lemma_render_fills(ps, vars2);
}

/// A template without `{` renders to itself, whatever the variables.
pub proof fn lemma_render_plain_text(t: Seq<char>, vars: Seq<(Seq<char>, Seq<char>)>)
    requires
        no_open_brace(t),
    ensures
        render_spec(t, vars) == t,
    decreases vars.len(),
{
    if vars.len() > 0 {
        lemma_render_plain_text(t, vars.drop_last());
        let p = placeholder(vars.last().0);
        lemma_replace_skips_text(t, Seq::empty(), p, vars.last().1);
        assert(t + Seq::<char>::empty() =~= t);
        assert(replace_all(Seq::<char>::empty(), p, vars.last().1) =~= Seq::<char>::empty());
    }
}

/// A template that is a single placeholder renders to the value of its key.
pub proof fn lemma_render_single_placeholder(key: Seq<char>, value: Seq<char>)
    ensures
        render_spec(placeholder(key), seq![(key, value)]) == value,
{
    let vars = seq![(key, value)];
    let p = placeholder(key);
    assert(vars.drop_last() =~= Seq::<(Seq<char>, Seq<char>)>::empty());
    assert(render_spec(p, vars.drop_last()) == p);
    assert(vars.last() == (key, value));
    assert(p.take(p.len() as int) =~= p);
    assert(p.skip(p.len() as int) =~= Seq::<char>::empty());
    assert(replace_all(Seq::<char>::empty(), p, value) =~= Seq::<char>::empty());
    assert(value + Seq::<char>::empty() =~= value);
}


/// `pat` occurs in `s` starting at position `i`.
pub open spec fn occurs_at(s: Seq<char>, pat: Seq<char>, i: int) -> bool {
    0 <= i && i + pat.len() <= s.len() && s.subrange(i, i + pat.len()) == pat
}

/// Text at the front in which no occurrence of the pattern starts passes
/// through a replacement unchanged.
proof fn lemma_replace_prefix(a: Seq<char>, c: Seq<char>, pat: Seq<char>, rep: Seq<char>)
    requires
        pat.len() > 0,
        forall|i: int| 0 <= i < a.len() ==> !occurs_at(a + c, pat, i),
    ensures
        replace_all(a + c, pat, rep) == a + replace_all(c, pat, rep),
    decreases a.len(),
{
    let s = a + c;
    if a.len() == 0 {
        assert(s =~= c);
    } else if s.len() < pat.len() {
        assert(replace_all(c, pat, rep) == c);
    } else {
        assert(!occurs_at(s, pat, 0));
        assert(s.take(pat.len() as int) =~= s.subrange(0, pat.len() as int));
        let a1 = a.drop_first();
        assert(s.drop_first() =~= a1 + c);
        assert forall|i: int| 0 <= i < a1.len() implies !occurs_at(a1 + c, pat, i) by {
            assert(!occurs_at(s, pat, i + 1));
            if i + pat.len() <= (a1 + c).len() {
                assert((a1 + c).subrange(i, i + pat.len()) =~= s.subrange(
                    i + 1,
                    i + 1 + pat.len(),
                ));
            }
        }
        lemma_replace_prefix(a1, c, pat, rep);
        assert(a =~= seq![a[0]] + a1);
        assert(s[0] == a[0]);
    }
}

/// Where a non-empty pattern does not occur, replacing it changes nothing.
pub proof fn lemma_replace_absent(s: Seq<char>, pat: Seq<char>, rep: Seq<char>)
    requires
        pat.len() > 0,
        forall|i: int| !occurs_at(s, pat, i),
    ensures
        replace_all(s, pat, rep) == s,
{
    let e = Seq::<char>::empty();
    assert(s + e =~= s);
    lemma_replace_prefix(s, e, pat, rep);
    assert(replace_all(e, pat, rep) == e);
}

/// The first occurrence of a non-empty pattern is replaced, whatever text
/// (braces of code included) comes before it, and the replacement goes on
/// in the text after it.
pub proof fn lemma_replace_first_occurrence(
    a: Seq<char>,
    pat: Seq<char>,
    b: Seq<char>,
    rep: Seq<char>,
)
    requires
        pat.len() > 0,
        forall|i: int| 0 <= i < a.len() ==> !occurs_at(a + pat + b, pat, i),
    ensures
        replace_all(a + pat + b, pat, rep) == a + rep + replace_all(b, pat, rep),
{
    let c = pat + b;
    assert(a + pat + b =~= a + c);
    lemma_replace_prefix(a, c, pat, rep);
    assert(c.take(pat.len() as int) =~= pat);
    assert(c.skip(pat.len() as int) =~= b);
    assert(replace_all(c, pat, rep) == rep + replace_all(b, pat, rep));
    assert(a + (rep + replace_all(b, pat, rep)) =~= a + rep + replace_all(b, pat, rep));
}

/// Rendering with one variable replaces the first `{{key}}` of any template,
/// whatever text comes before it, with the value, and goes on rendering the
/// rest.
pub proof fn lemma_render_first_placeholder(
    a: Seq<char>,
    key: Seq<char>,
    value: Seq<char>,
    b: Seq<char>,
)
    requires
        forall|i: int| 0 <= i < a.len() ==> !occurs_at(a + placeholder(key) + b, placeholder(key), i),
    ensures
        render_spec(a + placeholder(key) + b, seq![(key, value)]) == a + value + render_spec(
            b,
            seq![(key, value)],
        ),
{
    let vars = seq![(key, value)];
    assert(vars.drop_last() =~= Seq::<(Seq<char>, Seq<char>)>::empty());
    assert(vars.last() == (key, value));
    let t = a + placeholder(key) + b;
    assert(render_spec(t, vars.drop_last()) == t);
    assert(render_spec(b, vars.drop_last()) == b);
    assert(render_spec(t, vars) == replace_all(t, placeholder(key), value));
    assert(render_spec(b, vars) == replace_all(b, placeholder(key), value));
    lemma_replace_first_occurrence(a, placeholder(key), b, value);
}

/// Rendering with no variables leaves a template as it is, and rendering
/// with one more variable is rendering with the others, then replacing that
/// variable's placeholder with its value.
pub proof fn lemma_render_steps(
    t: Seq<char>,
    vars: Seq<(Seq<char>, Seq<char>)>,
    key: Seq<char>,
    value: Seq<char>,
)
    ensures
        render_spec(t, Seq::empty()) == t,
        render_spec(t, vars.push((key, value))) == replace_all(
            render_spec(t, vars),
            placeholder(key),
            value,
        ),
{
    assert(vars.push((key, value)).drop_last() =~= vars);
}

} // verus!
