//! Types that read back as they are written.
//!
//! A type is written with round brackets wherever its shape needs them, so
//! the text of a type is read as that type again. The one exception is a
//! member: a help file shows a literal in double quotes and an identifier
//! without its backticks, and the grammar reads neither as a member.
//! [`canonical`] states which types read back, and [`lemma_reads_back`] is
//! the law. [`lemma_read_reads_back`] is the same of what the grammar
//! reads: every type that a text spells reads back from its own text,
//! unless it holds a member or its text nests deeper than the grammar
//! reads.

use crate::text::{
    has, is_name_char, is_space, is_word_char, is_word_start, lemma_run_end, run_end, Class,
};
use crate::token::{
    closed, field_in, fields_in, grouped, name_text, tight, ty_text, tys_in, NameView, TyView,
};
use crate::ty::{
    atom_at, closing, field_at, fields_at, fun_at, parsed, suffixed, table_at, ty_at, tys_at,
    word_ty, MAX_DEPTH,
};
use vstd::prelude::*;

verus! {

/// The text of a name without its question mark.
pub open spec fn name_inner(n: NameView) -> Seq<char> {
    match n {
        NameView::Req(s) => s,
        NameView::Opt(s) => s,
    }
}

/// Whether a text is an identifier.
pub open spec fn is_ident(n: Seq<char>) -> bool {
    n.len() > 0 && is_word_start(n[0]) && forall|k: int|
        0 <= k < n.len() ==> is_word_char(#[trigger] n[k])
}

/// Whether a text is read as a reference by name: it is made of name
/// characters and is no keyword.
pub open spec fn is_type_name(w: Seq<char>) -> bool {
    w.len() > 0 && word_ty(w) == TyView::Ref(w) && forall|k: int|
        0 <= k < w.len() ==> is_name_char(#[trigger] w[k])
}

/// Whether a type reads back as it is written, where brackets and unions
/// may nest `fuel` deep, the round brackets of the text included.
///
/// A member never does: it is written without its quotes or backticks. A
/// reference must be a type name, the names of parameters and fields
/// identifiers, and a function that returns something must name at least
/// one type.
pub open spec fn canonical(t: TyView, fuel: nat) -> bool
    decreases t, 0nat,
{
    match t {
        TyView::Ref(w) => is_type_name(w),
        TyView::Member(_) => false,
        TyView::Array(e) => fits_group(*e, !tight(*e), fuel),
        TyView::Table(Some((k, v))) => fuel > 0 && fits_group(
            *k,
            !closed(*k),
            (fuel - 1) as nat,
        ) && canonical(*v, (fuel - 1) as nat),
        TyView::Fun(args, ret) => fuel > 0 && fields_ok(args, (fuel - 1) as nat) && match ret {
            Some(rs) => rs.len() > 0 && tys_ok(rs, (fuel - 1) as nat),
            None => true,
        },
        TyView::Dict(args) => fuel > 0 && fields_ok(args, (fuel - 1) as nat),
        TyView::Union(a, b) => fuel > 0 && fits_group(*a, !tight(*a), fuel) && canonical(
            *b,
            (fuel - 1) as nat,
        ),
        _ => true,
    }
}

/// Whether a type reads back where it is written in round brackets if
/// `group` is set, and as it is if not.
pub open spec fn fits_group(t: TyView, group: bool, fuel: nat) -> bool
    decreases t, 1nat,
{
    if group {
        fuel > 0 && canonical(t, (fuel - 1) as nat)
    } else {
        canonical(t, fuel)
    }
}

/// Whether the named types of a list read back: the names are
/// identifiers and the types read back as the list writes them.
pub open spec fn fields_ok(fs: Seq<(NameView, TyView)>, fuel: nat) -> bool
    decreases fs, 0nat,
{
    forall|j: int|
        0 <= j < fs.len() ==> is_ident(name_inner((#[trigger] fs[j]).0)) && fits_group(
            fs[j].1,
            j + 1 < fs.len() && !closed(fs[j].1),
            fuel,
        )
}

/// Whether the types of a list read back as the list writes them.
pub open spec fn tys_ok(rs: Seq<TyView>, fuel: nat) -> bool
    decreases rs, 0nat,
{
    forall|j: int|
        0 <= j < rs.len() ==> fits_group(
            #[trigger] rs[j],
            j + 1 < rs.len() && !closed(rs[j]),
            fuel,
        )
}

/// What the texts of the grammar's words and signs are.
pub proof fn lemma_literals()
    ensures
        "nil"@ == seq!['n', 'i', 'l'],
        "any"@ == seq!['a', 'n', 'y'],
        "unknown"@ == seq!['u', 'n', 'k', 'n', 'o', 'w', 'n'],
        "boolean"@ == seq!['b', 'o', 'o', 'l', 'e', 'a', 'n'],
        "string"@ == seq!['s', 't', 'r', 'i', 'n', 'g'],
        "number"@ == seq!['n', 'u', 'm', 'b', 'e', 'r'],
        "integer"@ == seq!['i', 'n', 't', 'e', 'g', 'e', 'r'],
        "function"@ == seq!['f', 'u', 'n', 'c', 't', 'i', 'o', 'n'],
        "thread"@ == seq!['t', 'h', 'r', 'e', 'a', 'd'],
        "userdata"@ == seq!['u', 's', 'e', 'r', 'd', 'a', 't', 'a'],
        "lightuserdata"@ == seq![
            'l',
            'i',
            'g',
            'h',
            't',
            'u',
            's',
            'e',
            'r',
            'd',
            'a',
            't',
            'a',
        ],
        "table"@ == seq!['t', 'a', 'b', 'l', 'e'],
        "fun"@ == seq!['f', 'u', 'n'],
        "[]"@ == seq!['[', ']'],
        "table<"@ == seq!['t', 'a', 'b', 'l', 'e', '<'],
        "fun("@ == seq!['f', 'u', 'n', '('],
        ","@ == seq![','],
        ">"@ == seq!['>'],
        ")"@ == seq![')'],
        ":"@ == seq![':'],
        "{"@ == seq!['{'],
        "}"@ == seq!['}'],
        "|"@ == seq!['|'],
{
    reveal_strlit("nil");
    reveal_strlit("any");
    reveal_strlit("unknown");
    reveal_strlit("boolean");
    reveal_strlit("string");
    reveal_strlit("number");
    reveal_strlit("integer");
    reveal_strlit("function");
    reveal_strlit("thread");
    reveal_strlit("userdata");
    reveal_strlit("lightuserdata");
    reveal_strlit("table");
    reveal_strlit("fun");
    reveal_strlit("[]");
    reveal_strlit("table<");
    reveal_strlit("fun(");
    reveal_strlit(",");
    reveal_strlit(">");
    reveal_strlit(")");
    reveal_strlit(":");
    reveal_strlit("{");
    reveal_strlit("}");
    reveal_strlit("|");
    assert("nil"@ =~= seq!['n', 'i', 'l']);
    assert("any"@ =~= seq!['a', 'n', 'y']);
    assert("unknown"@ =~= seq!['u', 'n', 'k', 'n', 'o', 'w', 'n']);
    assert("boolean"@ =~= seq!['b', 'o', 'o', 'l', 'e', 'a', 'n']);
    assert("string"@ =~= seq!['s', 't', 'r', 'i', 'n', 'g']);
    assert("number"@ =~= seq!['n', 'u', 'm', 'b', 'e', 'r']);
    assert("integer"@ =~= seq!['i', 'n', 't', 'e', 'g', 'e', 'r']);
    assert("function"@ =~= seq!['f', 'u', 'n', 'c', 't', 'i', 'o', 'n']);
    assert("thread"@ =~= seq!['t', 'h', 'r', 'e', 'a', 'd']);
    assert("userdata"@ =~= seq!['u', 's', 'e', 'r', 'd', 'a', 't', 'a']);
    assert("lightuserdata"@ =~= seq![
        'l',
        'i',
        'g',
        'h',
        't',
        'u',
        's',
        'e',
        'r',
        'd',
        'a',
        't',
        'a',
    ]);
    assert("table"@ =~= seq!['t', 'a', 'b', 'l', 'e']);
    assert("fun"@ =~= seq!['f', 'u', 'n']);
    assert("[]"@ =~= seq!['[', ']']);
    assert("table<"@ =~= seq!['t', 'a', 'b', 'l', 'e', '<']);
    assert("fun("@ =~= seq!['f', 'u', 'n', '(']);
    assert(","@ =~= seq![',']);
    assert(">"@ =~= seq!['>']);
    assert(")"@ =~= seq![')']);
    assert(":"@ =~= seq![':']);
    assert("{"@ =~= seq!['{']);
    assert("}"@ =~= seq!['}']);
    assert("|"@ =~= seq!['|']);
}

/// Where a text stands, its parts stand one behind the other.
pub proof fn lemma_has_split(s: Seq<char>, i: int, a: Seq<char>, b: Seq<char>)
    requires
        has(s, i, a + b),
    ensures
        has(s, i, a),
        has(s, i + a.len(), b),
{
    let whole = s.subrange(i, i + (a + b).len());
    assert(s.subrange(i, i + a.len()) =~= a) by {
        assert forall|k: int| 0 <= k < a.len() implies s.subrange(i, i + a.len())[k] == a[k] by {
            assert(whole[k] == (a + b)[k]);
        }
    }
    assert(s.subrange(i + a.len(), i + a.len() + b.len()) =~= b) by {
        assert forall|k: int| 0 <= k < b.len() implies s.subrange(
            i + a.len(),
            i + a.len() + b.len(),
        )[k] == b[k] by {
            assert(whole[a.len() + k] == (a + b)[a.len() + k]);
        }
    }
}

/// Where a text stands, each of its characters stands.
pub proof fn lemma_has_char(s: Seq<char>, i: int, a: Seq<char>, k: int)
    requires
        has(s, i, a),
        0 <= k < a.len(),
    ensures
        s[i + k] == a[k],
{
    assert(s.subrange(i, i + a.len())[k] == a[k]);
}

/// A run of `n` characters of a class that is followed by no further one
/// ends behind them.
pub proof fn lemma_run_exact(s: Seq<char>, i: int, n: int, cl: Class)
    requires
        0 <= i,
        0 <= n,
        i + n <= s.len(),
        forall|k: int| i <= k < i + n ==> crate::text::in_class(cl, #[trigger] s[k]),
        i + n == s.len() || !crate::text::in_class(cl, s[i + n]),
    ensures
        run_end(s, i, cl) == i + n,
    decreases n,
{
    if n > 0 {
        lemma_run_exact(s, i + 1, n - 1, cl);
    }
}

/// The text of a list of named types is the text of the first, then a
/// comma and the text of the others where there are others.
pub proof fn lemma_fields_front(fs: Seq<(NameView, TyView)>, followed: bool)
    requires
        fs.len() >= 1,
    ensures
        fields_in(fs, followed) == field_in(fs[0], fs.len() > 1 || followed) + if fs.len() == 1 {
            Seq::<char>::empty()
        } else {
            ","@ + fields_in(fs.drop_first(), followed)
        },
    decreases fs.len(),
{
    if fs.len() == 1 {
        assert(field_in(fs[0], followed) + Seq::<char>::empty() =~= field_in(fs[0], followed));
    } else if fs.len() == 2 {
        assert(fs.drop_last().len() == 1);
        assert(fs.drop_first().len() == 1);
        assert(fs.drop_last()[0] == fs[0]);
        assert(fs.drop_first()[0] == fs.last());
        assert(fields_in(fs.drop_last(), true) == field_in(fs[0], true));
        assert(fields_in(fs.drop_first(), followed) == field_in(fs.last(), followed));
        assert(fields_in(fs, followed) =~= field_in(fs[0], true) + (","@ + fields_in(
            fs.drop_first(),
            followed,
        )));
    } else {
        let init = fs.drop_last();
        let rest = fs.drop_first();
        lemma_fields_front(init, true);
        assert(init[0] == fs[0]);
        assert(init.drop_first() =~= rest.drop_last());
        assert(rest.last() == fs.last());
        assert(fields_in(fs, followed) =~= field_in(fs[0], true) + (","@ + fields_in(
            rest,
            followed,
        )));
    }
}

/// The text of a list of types is the text of the first, then a comma and
/// the text of the others where there are others.
pub proof fn lemma_tys_front(ts: Seq<TyView>, followed: bool)
    requires
        ts.len() >= 1,
    ensures
        tys_in(ts, followed) == grouped(ts[0], (ts.len() > 1 || followed) && !closed(ts[0]))
            + if ts.len() == 1 {
            Seq::<char>::empty()
        } else {
            ","@ + tys_in(ts.drop_first(), followed)
        },
    decreases ts.len(),
{
    let first = grouped(ts[0], (ts.len() > 1 || followed) && !closed(ts[0]));
    if ts.len() == 1 {
        assert(first + Seq::<char>::empty() =~= first);
    } else if ts.len() == 2 {
        assert(ts.drop_last().len() == 1);
        assert(ts.drop_first().len() == 1);
        assert(ts.drop_last()[0] == ts[0]);
        assert(ts.drop_first()[0] == ts.last());
        assert(tys_in(ts.drop_last(), true) == first);
        assert(tys_in(ts.drop_first(), followed) == grouped(
            ts.last(),
            followed && !closed(ts.last()),
        ));
        assert(tys_in(ts, followed) =~= first + (","@ + tys_in(ts.drop_first(), followed)));
    } else {
        let init = ts.drop_last();
        let rest = ts.drop_first();
        lemma_tys_front(init, true);
        assert(init[0] == ts[0]);
        assert(init.drop_first() =~= rest.drop_last());
        assert(rest.last() == ts.last());
        assert(tys_in(ts, followed) =~= first + (","@ + tys_in(rest, followed)));
    }
}

/// The text of `m` array suffixes.
pub open spec fn brackets(m: nat) -> Seq<char>
    decreases m,
{
    if m == 0 {
        Seq::empty()
    } else {
        seq!['[', ']'] + brackets((m - 1) as nat)
    }
}

/// A type made an array `m` times over.
pub open spec fn wrapped(t: TyView, m: nat) -> TyView
    decreases m,
{
    if m == 0 {
        t
    } else {
        wrapped(TyView::Array(Box::new(t)), (m - 1) as nat)
    }
}

/// `m` array suffixes take `2 * m` characters.
pub proof fn lemma_brackets_len(m: nat)
    ensures
        brackets(m).len() == 2 * m,
    decreases m,
{
    if m > 0 {
        lemma_brackets_len((m - 1) as nat);
    }
}

/// Where `m` array suffixes stand and no further one follows, the type
/// before them is made an array `m` times over.
pub proof fn lemma_suffixed(t: TyView, m: nat, s: Seq<char>, e: int)
    requires
        has(s, e, brackets(m)),
        e + 2 * m == s.len() || s[e + 2 * m] != '[',
    ensures
        suffixed(t, s, e) == (wrapped(t, m), e + 2 * m),
    decreases m,
{
    lemma_brackets_len(m);
    if m > 0 {
        lemma_has_split(s, e, seq!['[', ']'], brackets((m - 1) as nat));
        lemma_has_char(s, e, seq!['[', ']'], 0);
        lemma_has_char(s, e, seq!['[', ']'], 1);
        lemma_brackets_len((m - 1) as nat);
        lemma_suffixed(TyView::Array(Box::new(t)), (m - 1) as nat, s, e + 2);
    }
}


/// The text of a type that reads back is not empty and starts with no
/// whitespace and no closing bracket.
pub proof fn lemma_starts(t: TyView, fuel: nat)
    requires
        canonical(t, fuel),
    ensures
        ty_text(t).len() > 0,
        !is_space(ty_text(t)[0]),
        ty_text(t)[0] != ')',
        ty_text(t)[0] != '}',
    decreases t,
{
    lemma_literals();
    match t {
        TyView::Array(e) => {
            let inner = grouped(*e, !tight(*e));
            assert(fits_group(*e, !tight(*e), fuel));
            assert(ty_text(t) == inner + "[]"@);
            if tight(*e) {
                lemma_starts(*e, fuel);
                assert(inner == ty_text(*e));
            } else {
                assert(inner == seq!['('] + ty_text(*e) + seq![')']);
                assert(inner[0] == '(');
            }
            assert(ty_text(t)[0] == inner[0]);
        },
        TyView::Union(a, b) => {
            let inner = grouped(*a, !tight(*a));
            assert(fits_group(*a, !tight(*a), fuel));
            assert(ty_text(t) == inner + "|"@ + ty_text(*b));
            if tight(*a) {
                lemma_starts(*a, fuel);
                assert(inner == ty_text(*a));
            } else {
                assert(inner == seq!['('] + ty_text(*a) + seq![')']);
                assert(inner[0] == '(');
            }
            assert(ty_text(t)[0] == inner[0]);
        },
        TyView::Table(Some((k, v))) => {
            assert(ty_text(t)[0] == "table<"@[0]);
        },
        TyView::Fun(args, ret) => {
            assert(ty_text(t)[0] == "fun("@[0]);
        },
        TyView::Dict(args) => {
            assert(ty_text(t)[0] == "{"@[0]);
        },
        _ => {},
    }
}

/// The text of a type that reads back, in brackets or not, is not empty
/// and starts with no whitespace and no closing bracket.
pub proof fn lemma_group_starts(t: TyView, group: bool, fuel: nat)
    requires
        fits_group(t, group, fuel),
    ensures
        grouped(t, group).len() > 0,
        !is_space(grouped(t, group)[0]),
        grouped(t, group)[0] != ')',
        grouped(t, group)[0] != '}',
{
    if !group {
        lemma_starts(t, fuel);
    } else {
        assert(grouped(t, group) == seq!['('] + ty_text(t) + seq![')']);
        assert(grouped(t, group)[0] == '(');
    }
}

/// The text of a list of named types that reads back starts, from each of
/// its entries on, with the first character of an identifier.
pub proof fn lemma_fields_start(fs: Seq<(NameView, TyView)>, k: int, fuel: nat)
    requires
        fields_ok(fs, fuel),
        0 <= k < fs.len(),
    ensures
        fields_in(fs.skip(k), false).len() > 0,
        is_word_start(fields_in(fs.skip(k), false)[0]),
{
    let g = fs.skip(k);
    lemma_fields_front(g, false);
    let f = fs[k];
    assert(g[0] == f);
    assert(is_ident(name_inner(f.0)));
    assert(name_text(f.0)[0] == name_inner(f.0)[0]);
    assert(field_in(f, g.len() > 1)[0] == name_text(f.0)[0]);
}

/// Whether a character ends a type inside brackets or a list.
pub open spec fn is_stop(c: char) -> bool {
    c == ')' || c == '}' || c == '>' || c == ','
}

/// Whether what stands at `j` may follow a type: the end of the text or a
/// stop, a bar where `bar` is set, an array suffix where `suffix` is set.
pub open spec fn follows(s: Seq<char>, j: int, bar: bool, suffix: bool) -> bool {
    0 <= j <= s.len() && (j == s.len() || is_stop(s[j]) || (bar && s[j] == '|') || (suffix
        && s[j] == '['))
}

/// Whether what stands at `j` would be taken in by a list of returned
/// types that ends at `j`.
pub open spec fn must_close(s: Seq<char>, j: int) -> bool {
    0 <= j < s.len() && (s[j] == ',' || s[j] == '|' || s[j] == '[')
}

/// A word of name characters that is followed by no further one, nor by
/// the bracket that makes a function or a table of it, is read as the type
/// that the word stands for.
pub proof fn lemma_word(s: Seq<char>, i: int, fuel: nat, w: Seq<char>)
    requires
        0 <= i,
        has(s, i, w),
        w.len() > 0,
        forall|k: int| 0 <= k < w.len() ==> is_name_char(#[trigger] w[k]),
        i + w.len() == s.len() || (!is_name_char(s[i + w.len()]) && s[i + w.len()] != '(' && s[i
            + w.len()] != '<'),
    ensures
        atom_at(s, i, fuel) == Some((word_ty(w), i + w.len())),
{
    let j = i + w.len();
    lemma_has_char(s, i, w, 0);
    assert forall|k: int| i <= k < j implies crate::text::in_class(
        Class::Name,
        #[trigger] s[k],
    ) by {
        lemma_has_char(s, i, w, k - i);
    }
    lemma_run_exact(s, i, w.len() as int, Class::Name);
    assert(s.subrange(i, j) == w);
}

/// A type reads back where its text stands, whatever stop follows it.
pub proof fn lemma_ty(t: TyView, s: Seq<char>, i: int, fuel: nat)
    requires
        canonical(t, fuel),
        0 <= i,
        has(s, i, ty_text(t)),
        follows(s, i + ty_text(t).len(), false, false),
        must_close(s, i + ty_text(t).len()) ==> closed(t),
    ensures
        ty_at(s, i, fuel) == Some((t, i + ty_text(t).len())),
    decreases t, 3nat,
{
    lemma_literals();
    let j = i + ty_text(t).len();
    match t {
        TyView::Union(a, b) => {
            let ta = grouped(*a, !tight(*a));
            let tb = ty_text(*b);
            assert(ty_text(t) == ta + "|"@ + tb);
            lemma_has_split(s, i, ta + "|"@, tb);
            lemma_has_split(s, i, ta, "|"@);
            let ja = i + ta.len();
            lemma_has_char(s, ja, "|"@, 0);
            assert(ta + brackets(0) =~= ta);
            lemma_post(*a, !tight(*a), 0, s, i, fuel);
            lemma_starts(*b, (fuel - 1) as nat);
            lemma_has_char(s, ja + 1, tb, 0);
            lemma_ty(*b, s, ja + 1, (fuel - 1) as nat);
            assert(run_end(s, ja, Class::Space) == ja);
            assert(run_end(s, ja + 1, Class::Space) == ja + 1);
        },
        _ => {
            assert(grouped(t, false) + brackets(0) =~= ty_text(t));
            lemma_post(t, false, 0, s, i, fuel);
            assert(run_end(s, j, Class::Space) == j);
        },
    }
}

/// A type in round brackets is read as the type.
pub proof fn lemma_group(t: TyView, s: Seq<char>, i: int, fuel: nat)
    requires
        fuel > 0,
        canonical(t, (fuel - 1) as nat),
        0 <= i,
        has(s, i, grouped(t, true)),
    ensures
        atom_at(s, i, fuel) == Some((t, i + ty_text(t).len() + 2)),
    decreases t, 4nat,
{
    let tt = ty_text(t);
    assert(grouped(t, true) == seq!['('] + tt + seq![')']);
    lemma_has_split(s, i, seq!['('] + tt, seq![')']);
    lemma_has_split(s, i, seq!['('], tt);
    lemma_has_char(s, i, seq!['('], 0);
    let e = i + 1 + tt.len();
    lemma_has_char(s, e, seq![')'], 0);
    lemma_starts(t, (fuel - 1) as nat);
    lemma_has_char(s, i + 1, tt, 0);
    assert(run_end(s, i + 1, Class::Space) == i + 1);
    lemma_ty(t, s, i + 1, (fuel - 1) as nat);
    assert(run_end(s, e, Class::Space) == e);
    assert(closing(s, e, ')') == Some(e + 1));
}

/// A type, in round brackets or not, reads back, made an array by each of
/// the suffixes behind its text.
pub proof fn lemma_post(t: TyView, group: bool, m: nat, s: Seq<char>, i: int, fuel: nat)
    requires
        fits_group(t, group, fuel),
        !group ==> !(t is Union),
        0 <= i,
        has(s, i, grouped(t, group) + brackets(m)),
        follows(s, i + grouped(t, group).len() + 2 * m, true, false),
        !group ==> ((m > 0 || must_close(s, i + grouped(t, group).len() + 2 * m)) ==> closed(t)),
    ensures
        atom_at(s, i, fuel) is Some,
        suffixed(atom_at(s, i, fuel).unwrap().0, s, atom_at(s, i, fuel).unwrap().1) == (
            wrapped(t, m),
            i + grouped(t, group).len() + 2 * m,
        ),
    decreases t, (if group { 5nat } else { 2nat }),
{
    lemma_literals();
    lemma_brackets_len(m);
    if group {
        lemma_has_split(s, i, grouped(t, true), brackets(m));
        lemma_group(t, s, i, fuel);
        lemma_suffixed(t, m, s, i + ty_text(t).len() + 2);
    } else {
        match t {
            TyView::Array(e) => {
                let inner = grouped(*e, !tight(*e));
                assert(ty_text(t) == inner + "[]"@);
                assert(ty_text(t) + brackets(m) =~= inner + brackets(m + 1));
                lemma_brackets_len(m + 1);
                lemma_post(*e, !tight(*e), m + 1, s, i, fuel);
                assert(wrapped(*e, m + 1) == wrapped(t, m));
            },
            _ => {
                lemma_has_split(s, i, ty_text(t), brackets(m));
                let e = i + ty_text(t).len();
                if m > 0 {
                    lemma_has_char(s, e, brackets(m), 0);
                }
                lemma_atom(t, s, i, fuel);
                lemma_suffixed(t, m, s, e);
            },
        }
    }
}

/// A type, in round brackets or not, reads back where a stop follows it.
pub proof fn lemma_elem(t: TyView, group: bool, s: Seq<char>, i: int, fuel: nat)
    requires
        fits_group(t, group, fuel),
        0 <= i,
        has(s, i, grouped(t, group)),
        follows(s, i + grouped(t, group).len(), false, false),
        !group ==> (must_close(s, i + grouped(t, group).len()) ==> closed(t)),
    ensures
        ty_at(s, i, fuel) == Some((t, i + grouped(t, group).len())),
    decreases t, 6nat,
{
    if group {
        let j = i + grouped(t, true).len();
        lemma_group(t, s, i, fuel);
        assert(suffixed(t, s, j) == (t, j));
        assert(run_end(s, j, Class::Space) == j);
    } else {
        lemma_ty(t, s, i, fuel);
    }
}

/// A type that is neither a union nor an array reads back where its text
/// stands.
pub proof fn lemma_atom(x: TyView, s: Seq<char>, i: int, fuel: nat)
    requires
        canonical(x, fuel),
        !(x is Union),
        !(x is Array),
        0 <= i,
        has(s, i, ty_text(x)),
        follows(s, i + ty_text(x).len(), true, true),
        must_close(s, i + ty_text(x).len()) ==> closed(x),
    ensures
        atom_at(s, i, fuel) == Some((x, i + ty_text(x).len())),
    decreases x, 1nat,
{
    lemma_literals();
    match x {
        TyView::Table(Some((k, v))) => {
            lemma_atom_table(x, s, i, fuel);
        },
        TyView::Fun(args, ret) => {
            lemma_atom_fun(x, s, i, fuel);
        },
        TyView::Dict(args) => {
            lemma_atom_dict(x, s, i, fuel);
        },
        _ => {
            let w = ty_text(x);
            assert(w.len() > 0);
            assert forall|k: int| 0 <= k < w.len() implies is_name_char(#[trigger] w[k]) by {}
            assert(word_ty(w) == x);
            lemma_word(s, i, fuel, w);
        },
    }
}

/// A table with key and value reads back.
pub proof fn lemma_atom_table(x: TyView, s: Seq<char>, i: int, fuel: nat)
    requires
        x is Table,
        x->Table_0 is Some,
        canonical(x, fuel),
        0 <= i,
        has(s, i, ty_text(x)),
        follows(s, i + ty_text(x).len(), true, true),
    ensures
        atom_at(s, i, fuel) == Some((x, i + ty_text(x).len())),
    decreases x, 0nat,
{
    lemma_literals();
    let (k, v) = x->Table_0.unwrap();
    let gk = !closed(*k);
    let tk = grouped(*k, gk);
    let tv = ty_text(*v);
    let f = (fuel - 1) as nat;
    assert(ty_text(x) == "table<"@ + tk + ","@ + tv + ">"@);
    lemma_has_split(s, i, "table<"@ + tk + ","@ + tv, ">"@);
    lemma_has_split(s, i, "table<"@ + tk + ","@, tv);
    lemma_has_split(s, i, "table<"@ + tk, ","@);
    lemma_has_split(s, i, "table<"@, tk);
    let from = i + 6;
    let a = from + tk.len();
    let mid = a + 1;
    let b = mid + tv.len();
    lemma_has_char(s, a, ","@, 0);
    lemma_has_char(s, b, ">"@, 0);
    assert forall|n: int| 0 <= n < 6 implies s[i + n] == "table<"@[n] by {
        lemma_has_char(s, i, "table<"@, n);
    }
    assert(s[i] == 't' && s[i + 1] == 'a' && s[i + 2] == 'b' && s[i + 3] == 'l' && s[i + 4] == 'e'
        && s[i + 5] == '<');
    lemma_run_exact(s, i, 5, Class::Name);
    assert(s.subrange(i, i + 5) =~= "table"@);
    lemma_group_starts(*k, gk, f);
    lemma_has_char(s, from, tk, 0);
    assert(run_end(s, from, Class::Space) == from);
    lemma_elem(*k, gk, s, from, f);
    assert(run_end(s, a, Class::Space) == a);
    assert(closing(s, a, ',') == Some(mid));
    lemma_starts(*v, f);
    lemma_has_char(s, mid, tv, 0);
    assert(run_end(s, mid, Class::Space) == mid);
    lemma_ty(*v, s, mid, f);
    assert(run_end(s, b, Class::Space) == b);
    assert(closing(s, b, '>') == Some(b + 1));
    assert(table_at(s, from, f) == Some((x, b + 1)));
}

/// A function signature reads back.
#[verifier::rlimit(40)]
pub proof fn lemma_atom_fun(x: TyView, s: Seq<char>, i: int, fuel: nat)
    requires
        x is Fun,
        canonical(x, fuel),
        0 <= i,
        has(s, i, ty_text(x)),
        follows(s, i + ty_text(x).len(), true, true),
        must_close(s, i + ty_text(x).len()) ==> closed(x),
    ensures
        atom_at(s, i, fuel) == Some((x, i + ty_text(x).len())),
    decreases x, 0nat,
{
    lemma_literals();
    let args = x->Fun_0;
    let ret = x->Fun_1;
    let f = (fuel - 1) as nat;
    let ft = fields_in(args, false);
    let tail = match ret {
        Some(r) => ":"@ + tys_in(r, false),
        None => Seq::<char>::empty(),
    };
    let j = i + ty_text(x).len();
    assert(ty_text(x) == "fun("@ + ft + ")"@ + tail);
    lemma_has_split(s, i, "fun("@ + ft + ")"@, tail);
    lemma_has_split(s, i, "fun("@ + ft, ")"@);
    lemma_has_split(s, i, "fun("@, ft);
    let from = i + 4;
    let p = from + ft.len();
    lemma_has_char(s, p, ")"@, 0);
    assert forall|n: int| 0 <= n < 4 implies s[i + n] == "fun("@[n] by {
        lemma_has_char(s, i, "fun("@, n);
    }
    assert(s[i] == 'f' && s[i + 1] == 'u' && s[i + 2] == 'n' && s[i + 3] == '(');
    lemma_run_exact(s, i, 3, Class::Name);
    assert(s.subrange(i, i + 3) =~= "fun"@);
    assert(fields_ok(args, f));
    assert(args.skip(0) =~= args);
    lemma_fields(args, 0, s, from, f);
    if args.len() > 0 {
        lemma_fields_start(args, 0, f);
        lemma_has_char(s, from, ft, 0);
    }
    assert(run_end(s, from, Class::Space) == from);
    assert(run_end(s, p, Class::Space) == p);
    assert(closing(s, p, ')') == Some(p + 1));
    match ret {
        Some(rs) => {
            let rt = tys_in(rs, false);
            lemma_has_split(s, p + 1, ":"@, rt);
            lemma_has_char(s, p + 1, ":"@, 0);
            assert(run_end(s, p + 1, Class::Space) == p + 1);
            lemma_tys_front(rs, false);
            assert(tys_ok(rs, f));
            assert(fits_group(rs[0], 1 < rs.len() && !closed(rs[0]), f));
            lemma_group_starts(rs[0], rs.len() > 1 && !closed(rs[0]), f);
            lemma_has_char(s, p + 2, rt, 0);
            assert(run_end(s, p + 2, Class::Space) == p + 2);
            assert(rs.skip(0) =~= rs);
            lemma_tys(rs, 0, s, p + 2, f);
            assert(fun_at(s, from, f) == Some((x, j)));
        },
        None => {
            assert(p + 1 == j);
            assert(run_end(s, j, Class::Space) == j);
            assert(fun_at(s, from, f) == Some((x, j)));
        },
    }
}

/// A dictionary reads back.
pub proof fn lemma_atom_dict(x: TyView, s: Seq<char>, i: int, fuel: nat)
    requires
        x is Dict,
        canonical(x, fuel),
        0 <= i,
        has(s, i, ty_text(x)),
    ensures
        atom_at(s, i, fuel) == Some((x, i + ty_text(x).len())),
    decreases x, 0nat,
{
    lemma_literals();
    let args = x->Dict_0;
    let f = (fuel - 1) as nat;
    let ft = fields_in(args, false);
    assert(ty_text(x) == "{"@ + ft + "}"@);
    lemma_has_split(s, i, "{"@ + ft, "}"@);
    lemma_has_split(s, i, "{"@, ft);
    lemma_has_char(s, i, "{"@, 0);
    let from = i + 1;
    let p = from + ft.len();
    lemma_has_char(s, p, "}"@, 0);
    assert(fields_ok(args, f));
    assert(args.skip(0) =~= args);
    lemma_fields(args, 0, s, from, f);
    if args.len() > 0 {
        lemma_fields_start(args, 0, f);
        lemma_has_char(s, from, ft, 0);
    }
    assert(run_end(s, from, Class::Space) == from);
    assert(run_end(s, p, Class::Space) == p);
    assert(closing(s, p, '}') == Some(p + 1));
}

/// One named type reads back where its text stands before a comma or a
/// closing bracket.
pub proof fn lemma_field(f: (NameView, TyView), followed: bool, s: Seq<char>, i: int, fuel: nat)
    requires
        0 <= i,
        is_ident(name_inner(f.0)),
        fits_group(f.1, followed && !closed(f.1), fuel),
        has(s, i, field_in(f, followed)),
        i + field_in(f, followed).len() < s.len(),
        followed ==> s[i + field_in(f, followed).len()] == ',',
        !followed ==> s[i + field_in(f, followed).len()] == ')' || s[i + field_in(
            f,
            followed,
        ).len()] == '}',
    ensures
        field_at(s, i, fuel) == Some((f, i + field_in(f, followed).len())),
    decreases f.1, 7nat,
{
    lemma_literals();
    let inner = name_inner(f.0);
    let nt = name_text(f.0);
    let g = followed && !closed(f.1);
    let tt = grouped(f.1, g);
    assert(field_in(f, followed) == nt + ":"@ + tt);
    lemma_has_split(s, i, nt + ":"@, tt);
    lemma_has_split(s, i, nt, ":"@);
    let e = i + nt.len();
    lemma_has_char(s, e, ":"@, 0);
    let te = e + 1;
    let end = te + tt.len();
    let jn = i + inner.len();
    assert forall|n: int| i <= n < jn implies crate::text::in_class(
        Class::Word,
        #[trigger] s[n],
    ) by {
        lemma_has_char(s, i, nt, n - i);
    }
    lemma_has_char(s, i, nt, 0);
    match f.0 {
        NameView::Req(_) => {
            assert(jn == e);
        },
        NameView::Opt(_) => {
            lemma_has_char(s, i, nt, inner.len() as int);
            assert(s[jn] == '?');
            assert(jn + 1 == e);
        },
    }
    lemma_run_exact(s, i, inner.len() as int, Class::Word);
    assert(s.subrange(i, jn) =~= inner);
    assert(run_end(s, jn, Class::Space) == jn);
    assert(run_end(s, e, Class::Space) == e);
    lemma_group_starts(f.1, g, fuel);
    lemma_has_char(s, te, tt, 0);
    assert(run_end(s, te, Class::Space) == te);
    lemma_elem(f.1, g, s, te, fuel);
}

/// The named types of a list read back from the `k`-th on, where the text
/// of those stands before a closing bracket.
pub proof fn lemma_fields(fs: Seq<(NameView, TyView)>, k: int, s: Seq<char>, i: int, fuel: nat)
    requires
        0 <= k <= fs.len(),
        0 <= i,
        fields_ok(fs, fuel),
        has(s, i, fields_in(fs.skip(k), false)),
        i + fields_in(fs.skip(k), false).len() < s.len(),
        s[i + fields_in(fs.skip(k), false).len()] == ')' || s[i + fields_in(
            fs.skip(k),
            false,
        ).len()] == '}',
    ensures
        fields_at(s, i, fuel) == (fs.skip(k), i + fields_in(fs.skip(k), false).len()),
    decreases fs, fs.len() - k + 8,
{
    lemma_literals();
    let g = fs.skip(k);
    let j = i + fields_in(g, false).len();
    if k == fs.len() {
        assert(g =~= Seq::<(NameView, TyView)>::empty());
        assert(field_at(s, i, fuel) is None);
    } else {
        let f = fs[k];
        assert(g[0] == f);
        let more = k + 1 < fs.len();
        assert(is_ident(name_inner(f.0)));
        assert(fits_group(f.1, more && !closed(f.1), fuel));
        lemma_fields_front(g, false);
        let rest = if g.len() == 1 {
            Seq::<char>::empty()
        } else {
            ","@ + fields_in(g.drop_first(), false)
        };
        lemma_has_split(s, i, field_in(f, more), rest);
        let end = i + field_in(f, more).len();
        if more {
            lemma_has_split(s, end, ","@, fields_in(g.drop_first(), false));
            lemma_has_char(s, end, ","@, 0);
        }
        lemma_field(f, more, s, i, fuel);
        assert(run_end(s, end, Class::Space) == end);
        if more {
            let tail = fs.skip(k + 1);
            assert(g.drop_first() =~= tail);
            lemma_fields_start(fs, k + 1, fuel);
            lemma_has_char(s, end + 1, fields_in(tail, false), 0);
            assert(run_end(s, end + 1, Class::Space) == end + 1);
            lemma_fields(fs, k + 1, s, end + 1, fuel);
            assert(seq![f] + tail =~= g);
        } else {
            assert(g =~= seq![f]);
        }
    }
}

/// The types of a list read back from the `k`-th on, where the text of
/// those stands before a closing bracket or at the end.
pub proof fn lemma_tys(rs: Seq<TyView>, k: int, s: Seq<char>, i: int, fuel: nat)
    requires
        0 <= k < rs.len(),
        0 <= i,
        tys_ok(rs, fuel),
        has(s, i, tys_in(rs.skip(k), false)),
        follows(s, i + tys_in(rs.skip(k), false).len(), false, false),
        !must_close(s, i + tys_in(rs.skip(k), false).len()),
    ensures
        tys_at(s, i, fuel) == Some((rs.skip(k), i + tys_in(rs.skip(k), false).len())),
    decreases rs, rs.len() - k + 8,
{
    lemma_literals();
    let g = rs.skip(k);
    let t = rs[k];
    assert(g[0] == t);
    let more = k + 1 < rs.len();
    let gt = more && !closed(t);
    assert(fits_group(t, gt, fuel));
    lemma_tys_front(g, false);
    let rest = if g.len() == 1 {
        Seq::<char>::empty()
    } else {
        ","@ + tys_in(g.drop_first(), false)
    };
    let tt = grouped(t, gt);
    lemma_has_split(s, i, tt, rest);
    let end = i + tt.len();
    if more {
        lemma_has_split(s, end, ","@, tys_in(g.drop_first(), false));
        lemma_has_char(s, end, ","@, 0);
    }
    lemma_elem(t, gt, s, i, fuel);
    assert(run_end(s, end, Class::Space) == end);
    if more {
        let tail = rs.skip(k + 1);
        assert(g.drop_first() =~= tail);
        lemma_tys_front(tail, false);
        let next = rs[k + 1];
        assert(tail[0] == next);
        let gn = (tail.len() > 1) && !closed(next);
        assert(fits_group(next, k + 2 < rs.len() && !closed(next), fuel));
        lemma_group_starts(next, gn, fuel);
        lemma_has_char(s, end + 1, tys_in(tail, false), 0);
        assert(run_end(s, end + 1, Class::Space) == end + 1);
        lemma_tys(rs, k + 1, s, end + 1, fuel);
        assert(seq![t] + tail =~= g);
    } else {
        assert(g =~= seq![t]);
    }
}

/// A type is read back from its own text: writing it and reading the text
/// gives the type again, with the sides of every union in their order and
/// every array suffix in its place.
pub proof fn lemma_reads_back(t: TyView)
    requires
        canonical(t, MAX_DEPTH as nat),
    ensures
        parsed(ty_text(t)) == Some(t),
{
    let s = ty_text(t);
    lemma_starts(t, MAX_DEPTH as nat);
    assert(run_end(s, 0, Class::Space) == 0);
    assert(s.subrange(0, s.len() as int) =~= s);
    lemma_ty(t, s, 0, MAX_DEPTH as nat);
    assert(run_end(s, s.len() as int, Class::Space) == s.len());
}

/// Whether a type holds no member.
pub open spec fn no_member(t: TyView) -> bool
    decreases t,
{
    match t {
        TyView::Member(_) => false,
        TyView::Array(e) => no_member(*e),
        TyView::Table(Some((k, v))) => no_member(*k) && no_member(*v),
        TyView::Fun(args, ret) => (forall|j: int|
            0 <= j < args.len() ==> no_member((#[trigger] args[j]).1)) && match ret {
            Some(rs) => forall|j: int| 0 <= j < rs.len() ==> no_member(#[trigger] rs[j]),
            None => true,
        },
        TyView::Dict(args) => forall|j: int|
            0 <= j < args.len() ==> no_member((#[trigger] args[j]).1),
        TyView::Union(a, b) => no_member(*a) && no_member(*b),
        _ => true,
    }
}

/// Whether the names of a type are as the grammar reads names: each
/// reference is a type name, the name of each parameter and field is an
/// identifier, and a function that returns something names a type.
pub open spec fn named(t: TyView) -> bool
    decreases t,
{
    match t {
        TyView::Ref(w) => is_type_name(w),
        TyView::Array(e) => named(*e),
        TyView::Table(Some((k, v))) => named(*k) && named(*v),
        TyView::Fun(args, ret) => fields_named(args) && match ret {
            Some(rs) => rs.len() > 0 && tys_named(rs),
            None => true,
        },
        TyView::Dict(args) => fields_named(args),
        TyView::Union(a, b) => named(*a) && named(*b),
        _ => true,
    }
}

/// Whether the names of the named types of a list are as the grammar reads
/// names.
pub open spec fn fields_named(fs: Seq<(NameView, TyView)>) -> bool
    decreases fs,
{
    forall|j: int|
        0 <= j < fs.len() ==> is_ident(name_inner((#[trigger] fs[j]).0)) && named(fs[j].1)
}

/// Whether the names of the types of a list are as the grammar reads names.
pub open spec fn tys_named(rs: Seq<TyView>) -> bool
    decreases rs,
{
    forall|j: int| 0 <= j < rs.len() ==> named(#[trigger] rs[j])
}

/// Whether the text of a type nests its brackets and unions at most `fuel`
/// deep, the round brackets of the text included.
pub open spec fn nests(t: TyView, fuel: nat) -> bool
    decreases t, 0nat,
{
    match t {
        TyView::Array(e) => nests_group(*e, !tight(*e), fuel),
        TyView::Table(Some((k, v))) => fuel > 0 && nests_group(
            *k,
            !closed(*k),
            (fuel - 1) as nat,
        ) && nests(*v, (fuel - 1) as nat),
        TyView::Fun(args, ret) => fuel > 0 && (forall|j: int|
            0 <= j < args.len() ==> nests_group(
                (#[trigger] args[j]).1,
                j + 1 < args.len() && !closed(args[j].1),
                (fuel - 1) as nat,
            )) && match ret {
            Some(rs) => forall|j: int|
                0 <= j < rs.len() ==> nests_group(
                    #[trigger] rs[j],
                    j + 1 < rs.len() && !closed(rs[j]),
                    (fuel - 1) as nat,
                ),
            None => true,
        },
        TyView::Dict(args) => fuel > 0 && forall|j: int|
            0 <= j < args.len() ==> nests_group(
                (#[trigger] args[j]).1,
                j + 1 < args.len() && !closed(args[j].1),
                (fuel - 1) as nat,
            ),
        TyView::Union(a, b) => fuel > 0 && nests_group(*a, !tight(*a), fuel) && nests(
            *b,
            (fuel - 1) as nat,
        ),
        _ => true,
    }
}

/// Whether the text of a type, in round brackets if `group` is set, nests
/// at most `fuel` deep.
pub open spec fn nests_group(t: TyView, group: bool, fuel: nat) -> bool
    decreases t, 1nat,
{
    if group {
        fuel > 0 && nests(t, (fuel - 1) as nat)
    } else {
        nests(t, fuel)
    }
}

/// A type without members, with names as the grammar reads them, whose
/// text nests no deeper than `fuel`, reads back.
pub proof fn lemma_canonical(t: TyView, fuel: nat)
    requires
        no_member(t),
        named(t),
        nests(t, fuel),
    ensures
        canonical(t, fuel),
    decreases t, 0nat,
{
    let f = (fuel - 1) as nat;
    match t {
        TyView::Array(e) => {
            lemma_canonical_group(*e, !tight(*e), fuel);
        },
        TyView::Table(Some((k, v))) => {
            lemma_canonical_group(*k, !closed(*k), f);
            lemma_canonical(*v, f);
        },
        TyView::Fun(args, ret) => {
            assert(fields_named(args));
            assert(fields_ok(args, f)) by {
                assert forall|j: int| 0 <= j < args.len() implies is_ident(
                    name_inner((#[trigger] args[j]).0),
                ) && fits_group(args[j].1, j + 1 < args.len() && !closed(args[j].1), f) by {
                    lemma_canonical_group(
                        args[j].1,
                        j + 1 < args.len() && !closed(args[j].1),
                        f,
                    );
                }
            }
            match ret {
                Some(rs) => {
                    assert(tys_named(rs));
                    assert(tys_ok(rs, f)) by {
                        assert forall|j: int| 0 <= j < rs.len() implies fits_group(
                            #[trigger] rs[j],
                            j + 1 < rs.len() && !closed(rs[j]),
                            f,
                        ) by {
                            lemma_canonical_group(rs[j], j + 1 < rs.len() && !closed(rs[j]), f);
                        }
                    }
                },
                None => {},
            }
        },
        TyView::Dict(args) => {
            assert(fields_named(args));
            assert(fields_ok(args, f)) by {
                assert forall|j: int| 0 <= j < args.len() implies is_ident(
                    name_inner((#[trigger] args[j]).0),
                ) && fits_group(args[j].1, j + 1 < args.len() && !closed(args[j].1), f) by {
                    lemma_canonical_group(
                        args[j].1,
                        j + 1 < args.len() && !closed(args[j].1),
                        f,
                    );
                }
            }
        },
        TyView::Union(a, b) => {
            lemma_canonical_group(*a, !tight(*a), fuel);
            lemma_canonical(*b, f);
        },
        _ => {},
    }
}

/// The same of a type in round brackets or without.
pub proof fn lemma_canonical_group(t: TyView, group: bool, fuel: nat)
    requires
        no_member(t),
        named(t),
        nests_group(t, group, fuel),
    ensures
        fits_group(t, group, fuel),
    decreases t, 1nat,
{
    if group {
        lemma_canonical(t, (fuel - 1) as nat);
    } else {
        lemma_canonical(t, fuel);
    }
}

/// Array suffixes keep the names of a type as they are.
pub proof fn lemma_named_suffixed(x: TyView, s: Seq<char>, e: int)
    requires
        named(x),
    ensures
        named(suffixed(x, s, e).0),
    decreases s.len() - e,
{
    if 0 <= e && e + 1 < s.len() && s[e] == '[' && s[e + 1] == ']' {
        lemma_named_suffixed(TyView::Array(Box::new(x)), s, e + 2);
    }
}

/// Every type that the grammar reads has names as the grammar reads names.
pub proof fn lemma_named_ty(s: Seq<char>, i: int, fuel: nat)
    requires
        ty_at(s, i, fuel) is Some,
    ensures
        named(ty_at(s, i, fuel).unwrap().0),
    decreases fuel, 2nat, s.len() - i,
{
    lemma_named_atom(s, i, fuel);
    let (a, e) = atom_at(s, i, fuel).unwrap();
    lemma_named_suffixed(a, s, e);
    let (t, j) = suffixed(a, s, e);
    let k = run_end(s, j, Class::Space);
    if 0 <= k < s.len() && s[k] == '|' {
        lemma_named_ty(s, run_end(s, k + 1, Class::Space), (fuel - 1) as nat);
    }
}

/// Every type without suffix or union that the grammar reads has names as
/// the grammar reads names.
pub proof fn lemma_named_atom(s: Seq<char>, i: int, fuel: nat)
    requires
        atom_at(s, i, fuel) is Some,
    ensures
        named(atom_at(s, i, fuel).unwrap().0),
    decreases fuel, 0nat, s.len() - i,
{
    let f = (fuel - 1) as nat;
    if s[i] == '(' {
        lemma_named_ty(s, run_end(s, i + 1, Class::Space), f);
    } else if s[i] == '{' {
        lemma_named_fields(s, run_end(s, i + 1, Class::Space), f);
    } else if s[i] == '\'' {
    } else if s[i] == '`' {
    } else {
        let j = run_end(s, i, Class::Name);
        let w = s.subrange(i, j);
        if w == "fun"@ && j < s.len() && s[j] == '(' {
            lemma_named_fun(s, j + 1, f);
        } else if w == "table"@ && j < s.len() && s[j] == '<' {
            lemma_named_table(s, j + 1, f);
        } else {
            lemma_run_end(s, i, Class::Name);
            if word_ty(w) is Ref {
                assert(word_ty(w) == TyView::Ref(w));
                assert forall|k: int| 0 <= k < w.len() implies is_name_char(#[trigger] w[k]) by {
                    assert(w[k] == s[i + k]);
                }
                assert(is_type_name(w));
            }
        }
    }
}

/// Every function signature that the grammar reads has names as the
/// grammar reads names.
pub proof fn lemma_named_fun(s: Seq<char>, i: int, fuel: nat)
    requires
        fun_at(s, i, fuel) is Some,
    ensures
        named(fun_at(s, i, fuel).unwrap().0),
    decreases fuel, 5nat, s.len() - i,
{
    let from = run_end(s, i, Class::Space);
    lemma_named_fields(s, from, fuel);
    let (fs, j) = fields_at(s, from, fuel);
    let e = closing(s, j, ')').unwrap();
    let c = run_end(s, e, Class::Space);
    if 0 <= c < s.len() && s[c] == ':' {
        lemma_named_tys(s, run_end(s, c + 1, Class::Space), fuel);
    }
}

/// Every table type that the grammar reads has names as the grammar reads
/// names.
pub proof fn lemma_named_table(s: Seq<char>, i: int, fuel: nat)
    requires
        table_at(s, i, fuel) is Some,
    ensures
        named(table_at(s, i, fuel).unwrap().0),
    decreases fuel, 5nat, s.len() - i,
{
    let from = run_end(s, i, Class::Space);
    lemma_named_ty(s, from, fuel);
    let (k, a) = ty_at(s, from, fuel).unwrap();
    let c = closing(s, a, ',').unwrap();
    lemma_named_ty(s, run_end(s, c, Class::Space), fuel);
}

/// Every named type that the grammar reads has an identifier for its name
/// and a type with names as the grammar reads names.
pub proof fn lemma_named_field(s: Seq<char>, i: int, fuel: nat)
    requires
        field_at(s, i, fuel) is Some,
    ensures
        is_ident(name_inner(field_at(s, i, fuel).unwrap().0.0)),
        named(field_at(s, i, fuel).unwrap().0.1),
    decreases fuel, 3nat, s.len() - i,
{
    let j = run_end(s, i, Class::Word);
    lemma_run_end(s, i, Class::Word);
    lemma_run_end(s, i + 1, Class::Word);
    let inner = s.subrange(i, j);
    assert(j > i);
    assert(inner[0] == s[i]);
    assert forall|k: int| 0 <= k < inner.len() implies is_word_char(#[trigger] inner[k]) by {
        assert(inner[k] == s[i + k]);
    }
    assert(is_ident(inner));
    let q = run_end(s, j, Class::Space);
    let opt = 0 <= q < s.len() && s[q] == '?';
    let e = if opt {
        q + 1
    } else {
        j
    };
    let c = run_end(s, e, Class::Space);
    if 0 <= c < s.len() && s[c] == ':' {
        let at = run_end(s, c + 1, Class::Space);
        if ty_at(s, at, fuel) is Some {
            lemma_named_ty(s, at, fuel);
        }
    }
}

/// The named types of every list that the grammar reads have names as the
/// grammar reads names.
pub proof fn lemma_named_fields(s: Seq<char>, i: int, fuel: nat)
    ensures
        fields_named(fields_at(s, i, fuel).0),
    decreases fuel, 4nat, s.len() - i,
{
    match field_at(s, i, fuel) {
        None => {},
        Some((f, j)) => {
            lemma_named_field(s, i, fuel);
            let k = run_end(s, j, Class::Space);
            let next = run_end(s, k + 1, Class::Space);
            if 0 <= k < s.len() && s[k] == ',' && i < next <= s.len() {
                lemma_named_fields(s, next, fuel);
                let rest = fields_at(s, next, fuel).0;
                let all = seq![f] + rest;
                assert forall|n: int| 0 <= n < all.len() implies is_ident(
                    name_inner((#[trigger] all[n]).0),
                ) && named(all[n].1) by {
                    if n > 0 {
                        assert(all[n] == rest[n - 1]);
                    }
                }
            } else {
                let all = seq![f];
                assert forall|n: int| 0 <= n < all.len() implies is_ident(
                    name_inner((#[trigger] all[n]).0),
                ) && named(all[n].1) by {}
            }
        },
    }
}

/// The types of every list that the grammar reads have names as the
/// grammar reads names, and the list is not empty.
pub proof fn lemma_named_tys(s: Seq<char>, i: int, fuel: nat)
    requires
        tys_at(s, i, fuel) is Some,
    ensures
        tys_at(s, i, fuel).unwrap().0.len() > 0,
        tys_named(tys_at(s, i, fuel).unwrap().0),
    decreases fuel, 4nat, s.len() - i,
{
    lemma_named_ty(s, i, fuel);
    let (t, j) = ty_at(s, i, fuel).unwrap();
    let k = run_end(s, j, Class::Space);
    let next = run_end(s, k + 1, Class::Space);
    if 0 <= k < s.len() && s[k] == ',' && i < next <= s.len() && tys_at(s, next, fuel) is Some {
        lemma_named_tys(s, next, fuel);
        let rest = tys_at(s, next, fuel).unwrap().0;
        let all = seq![t] + rest;
        assert forall|n: int| 0 <= n < all.len() implies named(#[trigger] all[n]) by {
            if n > 0 {
                assert(all[n] == rest[n - 1]);
            }
        }
    } else {
        let all = seq![t];
        assert forall|n: int| 0 <= n < all.len() implies named(#[trigger] all[n]) by {}
    }
}

/// Every type that a text spells reads back from its own text, if it
/// holds no member and its text nests no deeper than the grammar reads:
/// what is read, written and read again is what was read.
pub proof fn lemma_read_reads_back(s: Seq<char>)
    requires
        parsed(s) is Some,
        no_member(parsed(s).unwrap()),
        nests(parsed(s).unwrap(), MAX_DEPTH as nat),
    ensures
        parsed(ty_text(parsed(s).unwrap())) == parsed(s),
{
    let t = parsed(s).unwrap();
    lemma_named_ty(s, run_end(s, 0, Class::Space), MAX_DEPTH as nat);
    lemma_canonical(t, MAX_DEPTH as nat);
    lemma_reads_back(t);
}

} // verus!
