//! The grammar of type expressions: primitives, names, literals, arrays,
//! tables, dictionaries, function signatures and unions.
//!
//! Every function here reads a buffer of characters from a position and, on
//! success, gives the type together with the position behind it. Whitespace
//! of any kind, line breaks included, may stand between the parts of an
//! expression. Brackets and unions nest at most [`MAX_DEPTH`] deep.

use crate::text::{chars_of, lemma_run_end, run_end, scan, spells, string_from, Class};
use crate::token::{fields_view, tys_view, Member, MemberView, Name, NameView, Ty, TyView};
use vstd::prelude::*;

verus! {

/// How deep brackets and unions of a type expression may nest.
pub const MAX_DEPTH: usize = 128;

/// The type that a bare word stands for: a primitive where the word is the
/// primitive's keyword, the bare table type, else a reference by name.
pub open spec fn word_ty(w: Seq<char>) -> TyView {
    if w == "nil"@ {
        TyView::Nil
    } else if w == "any"@ {
        TyView::Any
    } else if w == "unknown"@ {
        TyView::Unknown
    } else if w == "boolean"@ {
        TyView::Boolean
    } else if w == "string"@ {
        TyView::String
    } else if w == "number"@ {
        TyView::Number
    } else if w == "integer"@ {
        TyView::Integer
    } else if w == "function"@ {
        TyView::Function
    } else if w == "thread"@ {
        TyView::Thread
    } else if w == "userdata"@ {
        TyView::Userdata
    } else if w == "lightuserdata"@ {
        TyView::Lightuserdata
    } else if w == "table"@ {
        TyView::Table(None)
    } else {
        TyView::Ref(w)
    }
}

/// The position behind the character `c`, where `c` is the first character
/// at or after `j` that is not whitespace.
pub open spec fn closing(s: Seq<char>, j: int, c: char) -> Option<int> {
    let k = run_end(s, j, Class::Space);
    if 0 <= k < s.len() && s[k] == c {
        Some(k + 1)
    } else {
        None
    }
}

/// A type followed by as many `[]` as stand at `j`, each making an array of
/// what is before it.
pub open spec fn suffixed(t: TyView, s: Seq<char>, j: int) -> (TyView, int)
    decreases s.len() - j,
{
    if 0 <= j && j + 1 < s.len() && s[j] == '[' && s[j + 1] == ']' {
        suffixed(TyView::Array(Box::new(t)), s, j + 2)
    } else {
        (t, j)
    }
}

/// A type expression at `i`: a type, then `|` and a further type expression
/// if a `|` follows. A union nests to the right.
pub open spec fn ty_at(s: Seq<char>, i: int, fuel: nat) -> Option<(TyView, int)>
    decreases fuel, 2nat, s.len() - i,
{
    match atom_at(s, i, fuel) {
        None => None,
        Some((a, e)) => {
            let (t, j) = suffixed(a, s, e);
            let k = run_end(s, j, Class::Space);
            if 0 <= k < s.len() && s[k] == '|' {
                if fuel == 0 {
                    None
                } else {
                    match ty_at(s, run_end(s, k + 1, Class::Space), (fuel - 1) as nat) {
                        Some((u, end)) => Some((TyView::Union(Box::new(t), Box::new(u)), end)),
                        None => None,
                    }
                }
            } else {
                Some((t, j))
            }
        },
    }
}

/// A type without suffix or union at `i`: a bracketed type expression, a
/// dictionary, a quoted literal, a backticked identifier, a function
/// signature, a table, a primitive or a name.
pub open spec fn atom_at(s: Seq<char>, i: int, fuel: nat) -> Option<(TyView, int)>
    decreases fuel, 0nat, s.len() - i,
{
    if !(0 <= i < s.len()) {
        None
    } else if s[i] == '(' {
        if fuel == 0 {
            None
        } else {
            match ty_at(s, run_end(s, i + 1, Class::Space), (fuel - 1) as nat) {
                Some((t, j)) => match closing(s, j, ')') {
                    Some(e) => Some((t, e)),
                    None => None,
                },
                None => None,
            }
        }
    } else if s[i] == '{' {
        if fuel == 0 {
            None
        } else {
            let (fs, j) = fields_at(s, run_end(s, i + 1, Class::Space), (fuel - 1) as nat);
            match closing(s, j, '}') {
                Some(e) => Some((TyView::Dict(fs), e)),
                None => None,
            }
        }
    } else if s[i] == '\'' {
        let j = run_end(s, i + 1, Class::Quoted);
        if j < s.len() {
            Some((TyView::Member(MemberView::Literal(s.subrange(i + 1, j))), j + 1))
        } else {
            None
        }
    } else if s[i] == '`' {
        let j = run_end(s, i + 1, Class::Ticked);
        if j < s.len() {
            Some((TyView::Member(MemberView::Ident(s.subrange(i + 1, j))), j + 1))
        } else {
            None
        }
    } else {
        let j = run_end(s, i, Class::Name);
        let w = s.subrange(i, j);
        if j <= i {
            None
        } else if w == "fun"@ && j < s.len() && s[j] == '(' {
            if fuel == 0 {
                None
            } else {
                fun_at(s, j + 1, (fuel - 1) as nat)
            }
        } else if w == "table"@ && j < s.len() && s[j] == '<' {
            if fuel == 0 {
                None
            } else {
                table_at(s, j + 1, (fuel - 1) as nat)
            }
        } else {
            Some((word_ty(w), j))
        }
    }
}

/// The rest of a function signature behind its `fun(`: the parameters, the
/// closing bracket and, behind a colon, the types returned.
pub open spec fn fun_at(s: Seq<char>, i: int, fuel: nat) -> Option<(TyView, int)>
    decreases fuel, 5nat, s.len() - i,
{
    let (fs, j) = fields_at(s, run_end(s, i, Class::Space), fuel);
    match closing(s, j, ')') {
        None => None,
        Some(e) => {
            let c = run_end(s, e, Class::Space);
            if 0 <= c < s.len() && s[c] == ':' {
                match tys_at(s, run_end(s, c + 1, Class::Space), fuel) {
                    Some((rs, end)) => Some((TyView::Fun(fs, Some(rs)), end)),
                    None => None,
                }
            } else {
                Some((TyView::Fun(fs, None), e))
            }
        },
    }
}

/// The rest of a table type behind its `table<`: the key type, a comma, the
/// value type and the closing bracket.
pub open spec fn table_at(s: Seq<char>, i: int, fuel: nat) -> Option<(TyView, int)>
    decreases fuel, 5nat, s.len() - i,
{
    match ty_at(s, run_end(s, i, Class::Space), fuel) {
        None => None,
        Some((k, a)) => match closing(s, a, ',') {
            None => None,
            Some(c) => match ty_at(s, run_end(s, c, Class::Space), fuel) {
                None => None,
                Some((v, b)) => match closing(s, b, '>') {
                    None => None,
                    Some(e) => Some((TyView::Table(Some((Box::new(k), Box::new(v)))), e)),
                },
            },
        },
    }
}

/// One named type at `i`: an identifier, a question mark if the name is
/// optional and, behind a colon, its type. Without a type it is `any`.
pub open spec fn field_at(s: Seq<char>, i: int, fuel: nat) -> Option<((NameView, TyView), int)>
    decreases fuel, 3nat, s.len() - i,
{
    if !(0 <= i < s.len()) || !crate::text::is_word_start(s[i]) {
        None
    } else {
        let j = run_end(s, i, Class::Word);
        let q = run_end(s, j, Class::Space);
        let opt = 0 <= q < s.len() && s[q] == '?';
        let e = if opt {
            q + 1
        } else {
            j
        };
        let name = if opt {
            NameView::Opt(s.subrange(i, j))
        } else {
            NameView::Req(s.subrange(i, j))
        };
        let c = run_end(s, e, Class::Space);
        if 0 <= c < s.len() && s[c] == ':' {
            match ty_at(s, run_end(s, c + 1, Class::Space), fuel) {
                Some((t, end)) => Some(((name, t), end)),
                None => Some(((name, TyView::Any), e)),
            }
        } else {
            Some(((name, TyView::Any), e))
        }
    }
}

/// The named types at `i`, with commas between; a comma may follow the
/// last. The list may be empty.
pub open spec fn fields_at(s: Seq<char>, i: int, fuel: nat) -> (Seq<(NameView, TyView)>, int)
    decreases fuel, 4nat, s.len() - i,
{
    match field_at(s, i, fuel) {
        None => (Seq::empty(), i),
        Some((f, j)) => {
            let k = run_end(s, j, Class::Space);
            let next = run_end(s, k + 1, Class::Space);
            if 0 <= k < s.len() && s[k] == ',' && i < next <= s.len() {
                let (rest, e) = fields_at(s, next, fuel);
                (seq![f] + rest, e)
            } else {
                (seq![f], j)
            }
        },
    }
}

/// One or more type expressions at `i`, with commas between.
pub open spec fn tys_at(s: Seq<char>, i: int, fuel: nat) -> Option<(Seq<TyView>, int)>
    decreases fuel, 4nat, s.len() - i,
{
    match ty_at(s, i, fuel) {
        None => None,
        Some((t, j)) => {
            let k = run_end(s, j, Class::Space);
            let next = run_end(s, k + 1, Class::Space);
            if 0 <= k < s.len() && s[k] == ',' && i < next <= s.len() {
                match tys_at(s, next, fuel) {
                    Some((rest, e)) => Some((seq![t] + rest, e)),
                    None => Some((seq![t], j)),
                }
            } else {
                Some((seq![t], j))
            }
        },
    }
}

/// The type that a whole text spells, whitespace around it set aside.
pub open spec fn parsed(s: Seq<char>) -> Option<TyView> {
    match ty_at(s, run_end(s, 0, Class::Space), MAX_DEPTH as nat) {
        Some((t, j)) => if run_end(s, j, Class::Space) >= s.len() {
            Some(t)
        } else {
            None
        },
        None => None,
    }
}

/// Whether what a function read is what the grammar gives at `i`.
pub open spec fn read_as(r: Option<(Ty, usize)>, m: Option<(TyView, int)>, i: usize, len: nat) -> bool {
    match r {
        Some((t, j)) => m == Some((t@, j as int)) && i < j <= len,
        None => m is None,
    }
}

/// The type that the word from `i` up to `j` stands for.
fn word_type(s: &Vec<char>, i: usize, j: usize) -> (t: Ty)
    requires
        i <= j <= s.len(),
    ensures
        t@ == word_ty(s@.subrange(i as int, j as int)),
{
    if spells(s, i, j, "nil") {
        Ty::Nil
    } else if spells(s, i, j, "any") {
        Ty::Any
    } else if spells(s, i, j, "unknown") {
        Ty::Unknown
    } else if spells(s, i, j, "boolean") {
        Ty::Boolean
    } else if spells(s, i, j, "string") {
        Ty::String
    } else if spells(s, i, j, "number") {
        Ty::Number
    } else if spells(s, i, j, "integer") {
        Ty::Integer
    } else if spells(s, i, j, "function") {
        Ty::Function
    } else if spells(s, i, j, "thread") {
        Ty::Thread
    } else if spells(s, i, j, "userdata") {
        Ty::Userdata
    } else if spells(s, i, j, "lightuserdata") {
        Ty::Lightuserdata
    } else if spells(s, i, j, "table") {
        Ty::Table(None)
    } else {
        Ty::Ref(string_from(s, i, j))
    }
}

/// The position behind `c`, where `c` is the first character at or after
/// `j` that is not whitespace.
fn close(s: &Vec<char>, j: usize, c: char) -> (r: Option<usize>)
    requires
        j <= s.len(),
    ensures
        match r {
            Some(e) => closing(s@, j as int, c) == Some(e as int) && j < e <= s.len(),
            None => closing(s@, j as int, c) is None,
        },
{
    let k = scan(s, j, Class::Space);
    if k < s.len() && s[k] == c {
        Some(k + 1)
    } else {
        None
    }
}

/// Reads a type expression at `i`.
pub fn read_ty(s: &Vec<char>, i: usize, fuel: usize) -> (r: Option<(Ty, usize)>)
    requires
        i <= s.len(),
    ensures
        read_as(r, ty_at(s@, i as int, fuel as nat), i, s@.len()),
    decreases fuel, 2nat, s.len() - i,
{
    let (a, e) = match read_atom(s, i, fuel) {
        None => {
            return None;
        },
        Some(x) => x,
    };
    let ghost first = a@;
    let mut t = a;
    let mut j = e;
    while j < s.len() && s.len() - j >= 2 && s[j] == '[' && s[j + 1] == ']'
        invariant
            e <= j <= s.len(),
            suffixed(first, s@, e as int) == suffixed(t@, s@, j as int),
        decreases s.len() - j,
    {
        t = Ty::Array(Box::new(t));
        j += 2;
    }
    let k = scan(s, j, Class::Space);
    if k < s.len() && s[k] == '|' {
        if fuel == 0 {
            None
        } else {
            let from = scan(s, k + 1, Class::Space);
            match read_ty(s, from, fuel - 1) {
                Some((u, end)) => Some((Ty::Union(Box::new(t), Box::new(u)), end)),
                None => None,
            }
        }
    } else {
        Some((t, j))
    }
}

/// Reads a type without suffix or union at `i`.
pub fn read_atom(s: &Vec<char>, i: usize, fuel: usize) -> (r: Option<(Ty, usize)>)
    requires
        i <= s.len(),
    ensures
        read_as(r, atom_at(s@, i as int, fuel as nat), i, s@.len()),
    decreases fuel, 0nat, s.len() - i,
{
    if i >= s.len() {
        return None;
    }
    let c = s[i];
    if c == '(' {
        if fuel == 0 {
            return None;
        }
        let from = scan(s, i + 1, Class::Space);
        match read_ty(s, from, fuel - 1) {
            Some((t, j)) => match close(s, j, ')') {
                Some(e) => Some((t, e)),
                None => None,
            },
            None => None,
        }
    } else if c == '{' {
        if fuel == 0 {
            return None;
        }
        let from = scan(s, i + 1, Class::Space);
        let (fs, j) = read_fields(s, from, fuel - 1);
        match close(s, j, '}') {
            Some(e) => Some((Ty::Dict(fs), e)),
            None => None,
        }
    } else if c == '\'' {
        let j = scan(s, i + 1, Class::Quoted);
        if j < s.len() {
            Some((Ty::Member(Member::Literal(string_from(s, i + 1, j))), j + 1))
        } else {
            None
        }
    } else if c == '`' {
        let j = scan(s, i + 1, Class::Ticked);
        if j < s.len() {
            Some((Ty::Member(Member::Ident(string_from(s, i + 1, j))), j + 1))
        } else {
            None
        }
    } else {
        let j = scan(s, i, Class::Name);
        if j <= i {
            None
        } else if j < s.len() && s[j] == '(' && spells(s, i, j, "fun") {
            if fuel == 0 {
                None
            } else {
                read_fun(s, j + 1, fuel - 1, Ghost(i))
            }
        } else if j < s.len() && s[j] == '<' && spells(s, i, j, "table") {
            if fuel == 0 {
                None
            } else {
                read_table(s, j + 1, fuel - 1, Ghost(i))
            }
        } else {
            Some((word_type(s, i, j), j))
        }
    }
}

/// Reads the rest of a function signature behind its `fun(`.
fn read_fun(s: &Vec<char>, i: usize, fuel: usize, Ghost(start): Ghost<usize>) -> (r: Option<
    (Ty, usize),
>)
    requires
        start < i <= s.len(),
    ensures
        read_as(r, fun_at(s@, i as int, fuel as nat), start, s@.len()),
    decreases fuel, 5nat, s.len() - i,
{
    let from = scan(s, i, Class::Space);
    let (fs, j) = read_fields(s, from, fuel);
    match close(s, j, ')') {
        None => None,
        Some(e) => {
            let c = scan(s, e, Class::Space);
            if c < s.len() && s[c] == ':' {
                let at = scan(s, c + 1, Class::Space);
                match read_tys(s, at, fuel) {
                    Some((rs, end)) => Some((Ty::Fun(fs, Some(rs)), end)),
                    None => None,
                }
            } else {
                Some((Ty::Fun(fs, None), e))
            }
        },
    }
}

/// Reads the rest of a table type behind its `table<`.
fn read_table(s: &Vec<char>, i: usize, fuel: usize, Ghost(start): Ghost<usize>) -> (r: Option<
    (Ty, usize),
>)
    requires
        start < i <= s.len(),
    ensures
        read_as(r, table_at(s@, i as int, fuel as nat), start, s@.len()),
    decreases fuel, 5nat, s.len() - i,
{
    let from = scan(s, i, Class::Space);
    let (k, a) = match read_ty(s, from, fuel) {
        None => {
            return None;
        },
        Some(x) => x,
    };
    let c = match close(s, a, ',') {
        None => {
            return None;
        },
        Some(c) => c,
    };
    let at = scan(s, c, Class::Space);
    let (v, b) = match read_ty(s, at, fuel) {
        None => {
            return None;
        },
        Some(x) => x,
    };
    match close(s, b, '>') {
        None => None,
        Some(e) => Some((Ty::Table(Some((Box::new(k), Box::new(v)))), e)),
    }
}

/// Reads one named type at `i`.
fn read_field(s: &Vec<char>, i: usize, fuel: usize) -> (r: Option<((Name, Ty), usize)>)
    requires
        i <= s.len(),
    ensures
        match r {
            Some((f, j)) => field_at(s@, i as int, fuel as nat) == Some(((f.0@, f.1@), j as int))
                && i < j <= s.len(),
            None => field_at(s@, i as int, fuel as nat) is None,
        },
    decreases fuel, 3nat, s.len() - i,
{
    if i >= s.len() || !crate::text::word_start(s[i]) {
        return None;
    }
    let j = scan(s, i, Class::Word);
    proof {
        lemma_run_end(s@, i as int, Class::Word);
        assert(run_end(s@, i as int, Class::Word) > i);
    }
    let q = scan(s, j, Class::Space);
    let opt = q < s.len() && s[q] == '?';
    let e = if opt {
        q + 1
    } else {
        j
    };
    let text = string_from(s, i, j);
    let name = if opt {
        Name::Opt(text)
    } else {
        Name::Req(text)
    };
    let c = scan(s, e, Class::Space);
    if c < s.len() && s[c] == ':' {
        let at = scan(s, c + 1, Class::Space);
        match read_ty(s, at, fuel) {
            Some((t, end)) => Some(((name, t), end)),
            None => Some(((name, Ty::Any), e)),
        }
    } else {
        Some(((name, Ty::Any), e))
    }
}

/// Reads the named types at `i`, with commas between.
pub fn read_fields(s: &Vec<char>, i: usize, fuel: usize) -> (r: (Vec<(Name, Ty)>, usize))
    requires
        i <= s.len(),
    ensures
        fields_at(s@, i as int, fuel as nat) == (fields_view(r.0), r.1 as int),
        i <= r.1 <= s.len(),
    decreases fuel, 4nat, s.len() - i,
{
    let mut acc: Vec<(Name, Ty)> = Vec::new();
    let mut pos: usize = i;
    loop
        invariant
            i <= pos <= s.len(),
            fields_at(s@, i as int, fuel as nat) == (
                fields_view(acc) + fields_at(s@, pos as int, fuel as nat).0,
                fields_at(s@, pos as int, fuel as nat).1,
            ),
        decreases s.len() - pos,
    {
        match read_field(s, pos, fuel) {
            None => {
                assert(fields_view(acc) + Seq::empty() == fields_view(acc));
                return (acc, pos);
            },
            Some((f, j)) => {
                let ghost old_acc = fields_view(acc);
                let ghost fv = (f.0@, f.1@);
                let k = scan(s, j, Class::Space);
                acc.push(f);
                assert(fields_view(acc) == old_acc + seq![fv]);
                if k < s.len() && s[k] == ',' {
                    let next = scan(s, k + 1, Class::Space);
                    proof {
                        let rest = fields_at(s@, next as int, fuel as nat);
                        assert(old_acc + (seq![fv] + rest.0) == (old_acc + seq![fv]) + rest.0);
                    }
                    pos = next;
                } else {
                    return (acc, j);
                }
            },
        }
    }
}

/// Reads one or more type expressions at `i`, with commas between.
pub fn read_tys(s: &Vec<char>, i: usize, fuel: usize) -> (r: Option<(Vec<Ty>, usize)>)
    requires
        i <= s.len(),
    ensures
        match r {
            Some((ts, j)) => tys_at(s@, i as int, fuel as nat) == Some((tys_view(ts), j as int))
                && i < j <= s.len(),
            None => tys_at(s@, i as int, fuel as nat) is None,
        },
    decreases fuel, 4nat, s.len() - i,
{
    let mut acc: Vec<Ty> = Vec::new();
    let (first, end) = match read_ty(s, i, fuel) {
        None => {
            return None;
        },
        Some(x) => x,
    };
    acc.push(first);
    let mut pos: usize = i;
    let mut j: usize = end;
    assert(tys_view(acc) == seq![first@]);
    loop
        invariant
            i <= pos < j <= s.len(),
            acc.len() >= 1,
            ty_at(s@, pos as int, fuel as nat) == Some((acc[acc.len() - 1]@, j as int)),
            tys_at(s@, i as int, fuel as nat) == match tys_at(s@, pos as int, fuel as nat) {
                Some((rest, e)) => Some((tys_view(acc).drop_last() + rest, e)),
                None => None,
            },
        decreases s.len() - pos,
    {
        let k = scan(s, j, Class::Space);
        if k < s.len() && s[k] == ',' {
            let next = scan(s, k + 1, Class::Space);
            match read_ty(s, next, fuel) {
                None => {
                    proof {
                        let v = tys_view(acc);
                        assert(v.drop_last() + seq![v.last()] == v);
                    }
                    return Some((acc, j));
                },
                Some((t, e)) => {
                    let ghost before = tys_view(acc);
                    let ghost last = before.last();
                    acc.push(t);
                    proof {
                        let v = tys_view(acc);
                        assert(v == before.push(t@));
                        assert(v.drop_last() == before);
                        assert(before.drop_last() + seq![last] == before);
                        let rest = tys_at(s@, next as int, fuel as nat);
                        assert(rest is Some);
                        assert(before.drop_last() + (seq![last] + rest.unwrap().0) == before + rest.unwrap().0);
                    }
                    pos = next;
                    j = e;
                },
            }
        } else {
            proof {
                let v = tys_view(acc);
                assert(v.drop_last() + seq![v.last()] == v);
            }
            return Some((acc, j));
        }
    }
}

impl Ty {
    /// Reads a whole text as one type expression. Whitespace may stand
    /// around it; anything else behind it makes the text no type.
    pub fn parse(src: &str) -> (r: Option<Ty>)
        ensures
            match r {
                Some(t) => parsed(src@) == Some(t@),
                None => parsed(src@) is None,
            },
    {
        let s = chars_of(src);
        let i = scan(&s, 0, Class::Space);
        match read_ty(&s, i, MAX_DEPTH) {
            Some((t, j)) => {
                let e = scan(&s, j, Class::Space);
                if e >= s.len() {
                    Some(t)
                } else {
                    None
                }
            },
            None => None,
        }
    }
}

} // verus!
