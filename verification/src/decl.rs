//! Lua declarations: the few statement shapes that say which symbol a block
//! of annotations documents, and the `return` that names what a module
//! exports.

use crate::tags::{gap, ident_end, lexed, read_ident, skip_gap};
use crate::text::{run_end, scan, spells, string_from, Class};
use crate::token::{ops_view, Kind, Op, OpView, Token, TokenView};
use vstd::prelude::*;

verus! {

/// The name of a path segment.
pub open spec fn op_name(o: OpView) -> Seq<char> {
    match o {
        OpView::Dot(n) => n,
        OpView::Colon(n) => n,
    }
}

/// How a path segment was written.
pub open spec fn op_kind(o: OpView) -> Kind {
    match o {
        OpView::Dot(_) => Kind::Dot,
        OpView::Colon(_) => Kind::Colon,
    }
}

/// The segments `.name` that stand at `j`, one after the other.
pub open spec fn dots_at(s: Seq<char>, j: int) -> (Seq<OpView>, int)
    decreases s.len() - j,
{
    if 0 <= j < s.len() && s[j] == '.' && ident_end(s, j + 1) is Some && j < ident_end(
        s,
        j + 1,
    ).unwrap() <= s.len() {
        let e = ident_end(s, j + 1).unwrap();
        let (rest, end) = dots_at(s, e);
        (seq![OpView::Dot(s.subrange(j + 1, e))] + rest, end)
    } else {
        (Seq::empty(), j)
    }
}

/// The segments of a function's path at `j`: dotted segments, then one
/// segment `:name` if it stands there.
pub open spec fn path_at(s: Seq<char>, j: int) -> (Seq<OpView>, int) {
    let (dots, e) = dots_at(s, j);
    if 0 <= e < s.len() && s[e] == ':' && ident_end(s, e + 1) is Some {
        let end = ident_end(s, e + 1).unwrap();
        (dots.push(OpView::Colon(s.subrange(e + 1, end))), end)
    } else {
        (dots, e)
    }
}

/// `function <id>(.<id> | :<id>)+ (`, read from behind the word `function`.
pub open spec fn function_at(s: Seq<char>, q: int) -> Option<(TokenView, int)> {
    let a = run_end(s, q, Class::Blank);
    match ident_end(s, a) {
        None => None,
        Some(j) => {
            let (ops, e) = path_at(s, j);
            let c = run_end(s, e, Class::Blank);
            if ops.len() > 0 && 0 <= c < s.len() && s[c] == '(' {
                Some(
                    (
                        TokenView::Func {
                            prefix: Some(s.subrange(a, j)),
                            name: op_name(ops.last()),
                            op: ops,
                            kind: op_kind(ops.last()),
                        },
                        c,
                    ),
                )
            } else {
                None
            }
        },
    }
}

/// `local function <id>(` and `local <id> =`, read from behind the word
/// `local`.
pub open spec fn local_at(s: Seq<char>, q: int) -> Option<(TokenView, int)> {
    match gap(s, q) {
        None => None,
        Some(a) => match ident_end(s, a) {
            None => None,
            Some(j) => if s.subrange(a, j) == "function"@ {
                let b = run_end(s, j, Class::Blank);
                match ident_end(s, b) {
                    None => None,
                    Some(e) => {
                        let c = run_end(s, e, Class::Blank);
                        if 0 <= c < s.len() && s[c] == '(' {
                            Some(
                                (
                                    TokenView::Func {
                                        prefix: None,
                                        name: s.subrange(b, e),
                                        op: Seq::empty(),
                                        kind: Kind::Local,
                                    },
                                    c,
                                ),
                            )
                        } else {
                            None
                        }
                    },
                }
            } else {
                let c = run_end(s, j, Class::Blank);
                if 0 <= c < s.len() && s[c] == '=' {
                    Some(
                        (
                            TokenView::Expr {
                                prefix: None,
                                name: s.subrange(a, j),
                                op: Seq::empty(),
                                kind: Kind::Local,
                            },
                            c,
                        ),
                    )
                } else {
                    None
                }
            },
        },
    }
}

/// `return <id>` with nothing but whitespace up to the end of the source,
/// read from behind the word `return`.
pub open spec fn export_stmt_at(s: Seq<char>, q: int) -> Option<(TokenView, int)> {
    let a = run_end(s, q, Class::Space);
    match ident_end(s, a) {
        None => None,
        Some(j) => if run_end(s, j, Class::Space) >= s.len() {
            Some((TokenView::Export(s.subrange(a, j)), j))
        } else {
            None
        },
    }
}

/// `<id>(.<id>)+ = function` and `<id>(.<id>)+ = <expr>`, where the first
/// identifier runs from `i` up to `q`.
pub open spec fn assign_at(s: Seq<char>, i: int, q: int) -> Option<(TokenView, int)> {
    let (ops, e) = dots_at(s, q);
    let c = run_end(s, e, Class::Blank);
    if ops.len() > 0 && 0 <= c < s.len() && s[c] == '=' {
        let d = run_end(s, c + 1, Class::Blank);
        let is_fn = ident_end(s, d) is Some && s.subrange(d, ident_end(s, d).unwrap())
            == "function"@;
        if is_fn {
            Some(
                (
                    TokenView::Func {
                        prefix: Some(s.subrange(i, q)),
                        name: op_name(ops.last()),
                        op: ops,
                        kind: Kind::Dot,
                    },
                    c,
                ),
            )
        } else {
            Some(
                (
                    TokenView::Expr {
                        prefix: Some(s.subrange(i, q)),
                        name: op_name(ops.last()),
                        op: ops,
                        kind: Kind::Dot,
                    },
                    c,
                ),
            )
        }
    } else {
        None
    }
}

/// The declaration that starts at `i`, if one of the known shapes does.
pub open spec fn decl_at(s: Seq<char>, i: int) -> Option<(TokenView, int)> {
    match ident_end(s, i) {
        None => None,
        Some(q) => {
            let w = s.subrange(i, q);
            if w == "function"@ {
                function_at(s, q)
            } else if w == "local"@ {
                local_at(s, q)
            } else if w == "return"@ {
                export_stmt_at(s, q)
            } else {
                assign_at(s, i, q)
            }
        },
    }
}

/// Reads the segments `.name` at `j`.
pub fn read_dots(s: &Vec<char>, j: usize) -> (r: (Vec<Op>, usize))
    requires
        j <= s.len(),
    ensures
        dots_at(s@, j as int) == (ops_view(r.0), r.1 as int),
        j <= r.1 <= s.len(),
{
    let mut acc: Vec<Op> = Vec::new();
    let mut pos: usize = j;
    loop
        invariant
            j <= pos <= s.len(),
            dots_at(s@, j as int) == (
                ops_view(acc) + dots_at(s@, pos as int).0,
                dots_at(s@, pos as int).1,
            ),
        decreases s.len() - pos,
    {
        if pos < s.len() && s[pos] == '.' {
            match read_ident(s, pos + 1) {
                Some(e) => {
                    let ghost before = ops_view(acc);
                    let ghost seg = OpView::Dot(s@.subrange(pos + 1, e as int));
                    acc.push(Op::Dot(string_from(s, pos + 1, e)));
                    proof {
                        assert(ops_view(acc) == before + seq![seg]);
                        let rest = dots_at(s@, e as int);
                        assert(before + (seq![seg] + rest.0) == (before + seq![seg]) + rest.0);
                    }
                    pos = e;
                },
                None => {
                    assert(ops_view(acc) + Seq::empty() == ops_view(acc));
                    return (acc, pos);
                },
            }
        } else {
            assert(ops_view(acc) + Seq::empty() == ops_view(acc));
            return (acc, pos);
        }
    }
}

/// Reads the segments of a function's path at `j`.
pub fn read_path(s: &Vec<char>, j: usize) -> (r: (Vec<Op>, usize))
    requires
        j <= s.len(),
    ensures
        path_at(s@, j as int) == (ops_view(r.0), r.1 as int),
        j <= r.1 <= s.len(),
{
    let (mut ops, e) = read_dots(s, j);
    if e < s.len() && s[e] == ':' {
        match read_ident(s, e + 1) {
            Some(end) => {
                let ghost before = ops_view(ops);
                ops.push(Op::Colon(string_from(s, e + 1, end)));
                assert(ops_view(ops) == before.push(OpView::Colon(s@.subrange(e + 1, end as int))));
                (ops, end)
            },
            None => (ops, e),
        }
    } else {
        (ops, e)
    }
}

/// The name of the last of a symbol's segments.
fn last_name(ops: &Vec<Op>) -> (r: String)
    requires
        ops.len() > 0,
    ensures
        r@ == op_name(ops_view(*ops).last()),
{
    match &ops[ops.len() - 1] {
        Op::Dot(n) => n.clone(),
        Op::Colon(n) => n.clone(),
    }
}

/// How the last of a symbol's segments was written.
fn last_kind(ops: &Vec<Op>) -> (r: Kind)
    requires
        ops.len() > 0,
    ensures
        r == op_kind(ops_view(*ops).last()),
{
    match &ops[ops.len() - 1] {
        Op::Dot(_) => Kind::Dot,
        Op::Colon(_) => Kind::Colon,
    }
}

/// Reads a function declaration from behind the word `function`.
pub fn read_function(s: &Vec<char>, q: usize) -> (r: Option<(Token, usize)>)
    requires
        q <= s.len(),
    ensures
        lexed(r, function_at(s@, q as int), s@.len()),
{
    let a = scan(s, q, Class::Blank);
    match read_ident(s, a) {
        None => None,
        Some(j) => {
            let (ops, e) = read_path(s, j);
            let c = scan(s, e, Class::Blank);
            if ops.len() > 0 && c < s.len() && s[c] == '(' {
                let name = last_name(&ops);
                let kind = last_kind(&ops);
                Some((Token::Func { prefix: Some(string_from(s, a, j)), name, op: ops, kind }, c))
            } else {
                None
            }
        },
    }
}

/// Reads a local declaration from behind the word `local`.
pub fn read_local(s: &Vec<char>, q: usize) -> (r: Option<(Token, usize)>)
    requires
        q <= s.len(),
    ensures
        lexed(r, local_at(s@, q as int), s@.len()),
{
    let a = match skip_gap(s, q) {
        None => {
            return None;
        },
        Some(a) => a,
    };
    let j = match read_ident(s, a) {
        None => {
            return None;
        },
        Some(j) => j,
    };
    if spells(s, a, j, "function") {
        let b = scan(s, j, Class::Blank);
        match read_ident(s, b) {
            None => None,
            Some(e) => {
                let c = scan(s, e, Class::Blank);
                if c < s.len() && s[c] == '(' {
                    let op: Vec<Op> = Vec::new();
                    assert(ops_view(op) == Seq::<OpView>::empty());
                    Some(
                        (
                            Token::Func {
                                prefix: None,
                                name: string_from(s, b, e),
                                op,
                                kind: Kind::Local,
                            },
                            c,
                        ),
                    )
                } else {
                    None
                }
            },
        }
    } else {
        let c = scan(s, j, Class::Blank);
        if c < s.len() && s[c] == '=' {
            let op: Vec<Op> = Vec::new();
            assert(ops_view(op) == Seq::<OpView>::empty());
            Some(
                (Token::Expr { prefix: None, name: string_from(s, a, j), op, kind: Kind::Local }, c),
            )
        } else {
            None
        }
    }
}

/// Reads the statement that names the export from behind the word `return`.
pub fn read_export_stmt(s: &Vec<char>, q: usize) -> (r: Option<(Token, usize)>)
    requires
        q <= s.len(),
    ensures
        lexed(r, export_stmt_at(s@, q as int), s@.len()),
{
    let a = scan(s, q, Class::Space);
    match read_ident(s, a) {
        None => None,
        Some(j) => if scan(s, j, Class::Space) >= s.len() {
            Some((Token::Export(string_from(s, a, j)), j))
        } else {
            None
        },
    }
}

/// Reads an assignment to a dotted name whose first identifier runs from
/// `i` up to `q`.
pub fn read_assign(s: &Vec<char>, i: usize, q: usize) -> (r: Option<(Token, usize)>)
    requires
        i <= q <= s.len(),
    ensures
        lexed(r, assign_at(s@, i as int, q as int), s@.len()),
{
    let (ops, e) = read_dots(s, q);
    let c = scan(s, e, Class::Blank);
    if ops.len() > 0 && c < s.len() && s[c] == '=' {
        let d = scan(s, c + 1, Class::Blank);
        let is_fn = match read_ident(s, d) {
            Some(w) => spells(s, d, w, "function"),
            None => false,
        };
        let name = last_name(&ops);
        let prefix = Some(string_from(s, i, q));
        if is_fn {
            Some((Token::Func { prefix, name, op: ops, kind: Kind::Dot }, c))
        } else {
            Some((Token::Expr { prefix, name, op: ops, kind: Kind::Dot }, c))
        }
    } else {
        None
    }
}

/// Reads the declaration that starts at `i`, if one of the known shapes
/// does.
pub fn read_decl(s: &Vec<char>, i: usize) -> (r: Option<(Token, usize)>)
    requires
        i <= s.len(),
    ensures
        lexed(r, decl_at(s@, i as int), s@.len()),
{
    match read_ident(s, i) {
        None => None,
        Some(q) => if spells(s, i, q, "function") {
            read_function(s, q)
        } else if spells(s, i, q, "local") {
            read_local(s, q)
        } else if spells(s, i, q, "return") {
            read_export_stmt(s, q)
        } else {
            read_assign(s, i, q)
        },
    }
}

} // verus!
