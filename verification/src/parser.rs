//! The node parser: from the tokens of a source file to its documentation
//! nodes.
//!
//! At each place of the token stream the parser reads the node that starts
//! there. Where none does, it leaves out one token and goes on behind it:
//! what cannot be read costs its own tokens and nothing else.

use crate::node::{
    Alias, AliasKind, AliasKindView, AliasView, Brief, BriefView, Class, ClassView, Code,
    CodeView, Divider, Field, FieldView, Func, FuncView, Module, ModuleView, Node, NodeView,
    Param, ParamView, Prefix, PrefixView, Return, ReturnView, See, SeeView, Tag, Type, TypeView,
    Usage, UsageView, variants_view, usage_view,
};
use crate::text::views;
use crate::token::{
    copy_ops, opt_view, stream_view, Member, MemberView, Span, Token, TokenView,
};
use vstd::prelude::*;

verus! {

/// A token stream as the grammar sees it.
pub type Stream = Seq<(TokenView, Span)>;

/// The text of a comment token.
pub open spec fn comment_text(t: TokenView) -> Seq<char> {
    match t {
        TokenView::Comment(c) => c,
        _ => Seq::empty(),
    }
}

/// The end of the run of comment tokens at `i`.
pub open spec fn comments_end(ts: Stream, i: int) -> int
    decreases ts.len() - i,
{
    if 0 <= i < ts.len() && ts[i].0 is Comment {
        comments_end(ts, i + 1)
    } else {
        i
    }
}

/// The texts of the comment tokens from `i` up to `j`.
pub open spec fn comment_texts(ts: Stream, i: int, j: int) -> Seq<Seq<char>> {
    Seq::new((j - i) as nat, |k: int| comment_text(ts[i + k].0))
}

/// A description: the text behind a tag, where there is one, then further
/// lines.
pub open spec fn with_note(d: Option<Seq<char>>, lines: Seq<Seq<char>>) -> Seq<Seq<char>> {
    match d {
        Some(d) => seq![d] + lines,
        None => lines,
    }
}

/// The parameters at `i`: each a `@param` token and the comments behind it.
pub open spec fn params_at(ts: Stream, i: int) -> (Seq<ParamView>, int)
    decreases ts.len() - i,
{
    if 0 <= i < ts.len() {
        match ts[i].0 {
            TokenView::Param(name, ty, d) => {
                let e = comments_end(ts, i + 1);
                if i < e <= ts.len() {
                    let (rest, end) = params_at(ts, e);
                    (
                        seq![
                            ParamView { name, ty, desc: with_note(d, comment_texts(ts, i + 1, e)) },
                        ] + rest,
                        end,
                    )
                } else {
                    (Seq::empty(), i)
                }
            },
            _ => (Seq::empty(), i),
        }
    } else {
        (Seq::empty(), i)
    }
}

/// The returned values at `i`: each a `@return` token and the comments
/// behind it.
pub open spec fn returns_at(ts: Stream, i: int) -> (Seq<ReturnView>, int)
    decreases ts.len() - i,
{
    if 0 <= i < ts.len() {
        match ts[i].0 {
            TokenView::Return(ty, name, d) => {
                let e = comments_end(ts, i + 1);
                if i < e <= ts.len() {
                    let (rest, end) = returns_at(ts, e);
                    (
                        seq![
                            ReturnView { ty, name, desc: with_note(d, comment_texts(ts, i + 1, e)) },
                        ] + rest,
                        end,
                    )
                } else {
                    (Seq::empty(), i)
                }
            },
            _ => (Seq::empty(), i),
        }
    } else {
        (Seq::empty(), i)
    }
}

/// The references of the run of `@see` tokens at `i`.
pub open spec fn sees_at(ts: Stream, i: int) -> (Seq<Seq<char>>, int)
    decreases ts.len() - i,
{
    if 0 <= i < ts.len() {
        match ts[i].0 {
            TokenView::See(r) => {
                let (rest, end) = sees_at(ts, i + 1);
                (seq![r] + rest, end)
            },
            _ => (Seq::empty(), i),
        }
    } else {
        (Seq::empty(), i)
    }
}

/// The usage example at `i`: a block of comments between its start and its
/// end, or one inline piece of code.
pub open spec fn usage_at(ts: Stream, i: int) -> Option<(UsageView, int)> {
    if 0 <= i < ts.len() {
        match ts[i].0 {
            TokenView::UsageStart(lang) => {
                let e = comments_end(ts, i + 1);
                if 0 <= e < ts.len() && ts[e].0 is UsageEnd {
                    Some(
                        (
                            UsageView {
                                lang,
                                code: CodeView::MultiLine(comment_texts(ts, i + 1, e)),
                            },
                            e + 1,
                        ),
                    )
                } else {
                    None
                }
            },
            TokenView::Usage(lang, code) => Some(
                (UsageView { lang, code: CodeView::InLine(code) }, i + 1),
            ),
            _ => None,
        }
    } else {
        None
    }
}

/// The usage example at `i` where there is one, and the place behind it.
pub open spec fn opt_usage_at(ts: Stream, i: int) -> (Option<UsageView>, int) {
    match usage_at(ts, i) {
        Some((u, e)) => (Some(u), e),
        None => (None, i),
    }
}

/// The function at `i`: comments, parameters, returned values, references,
/// a usage example where there is one, and the declaration of a function.
pub open spec fn func_at(ts: Stream, i: int) -> Option<(NodeView, int)> {
    let c = comments_end(ts, i);
    let (params, a) = params_at(ts, c);
    let (rets, b) = returns_at(ts, a);
    let (refs, d) = sees_at(ts, b);
    let (usage, e) = opt_usage_at(ts, d);
    if 0 <= e < ts.len() {
        match ts[e].0 {
            TokenView::Func { prefix, name, op, kind } => Some(
                (
                    NodeView::Func(
                        FuncView {
                            prefix: PrefixView { left: prefix, right: prefix },
                            kind,
                            op,
                            desc: comment_texts(ts, i, c),
                            params,
                            returns: rets,
                            see: SeeView { refs },
                            usage,
                        },
                    ),
                    e + 1,
                ),
            ),
            _ => None,
        }
    } else {
        None
    }
}

/// The fields at `i`: each the comments above a `@field` token and the
/// token.
pub open spec fn fields_at(ts: Stream, i: int) -> (Seq<FieldView>, int)
    decreases ts.len() - i,
{
    let c = comments_end(ts, i);
    if 0 <= i <= c < ts.len() {
        match ts[c].0 {
            TokenView::Field(scope, name, ty, d) => {
                let (rest, end) = fields_at(ts, c + 1);
                (
                    seq![FieldView { scope, name, ty, desc: with_note(d, comment_texts(ts, i, c)) }]
                        + rest,
                    end,
                )
            },
            _ => (Seq::empty(), i),
        }
    } else {
        (Seq::empty(), i)
    }
}

/// The class at `i`: comments, the `@class` token, fields and references.
/// The description holds the text behind the tag, then the comments.
pub open spec fn class_at(ts: Stream, i: int) -> Option<(NodeView, int)> {
    let c = comments_end(ts, i);
    if 0 <= c < ts.len() {
        match ts[c].0 {
            TokenView::Class(name, parent, d) => {
                let (fields, a) = fields_at(ts, c + 1);
                let (refs, b) = sees_at(ts, a);
                Some(
                    (
                        NodeView::Class(
                            ClassView {
                                name,
                                parent,
                                desc: with_note(d, comment_texts(ts, i, c)),
                                fields,
                                see: SeeView { refs },
                                prefix: PrefixView { left: None, right: None },
                            },
                        ),
                        b,
                    ),
                )
            },
            _ => None,
        }
    } else {
        None
    }
}

/// The members of the run of variant tokens at `i`.
pub open spec fn variants_at(ts: Stream, i: int) -> (Seq<(MemberView, Option<Seq<char>>)>, int)
    decreases ts.len() - i,
{
    if 0 <= i < ts.len() {
        match ts[i].0 {
            TokenView::Variant(m, d) => {
                let (rest, end) = variants_at(ts, i + 1);
                (seq![(m, d)] + rest, end)
            },
            _ => (Seq::empty(), i),
        }
    } else {
        (Seq::empty(), i)
    }
}

/// The alias at `i`: comments and the `@alias` token, which either names a
/// type or is followed by the variants of an enumeration.
pub open spec fn alias_at(ts: Stream, i: int) -> Option<(NodeView, int)> {
    let c = comments_end(ts, i);
    if 0 <= c < ts.len() {
        match ts[c].0 {
            TokenView::Alias(name, ty) => {
                let (vs, e) = variants_at(ts, c + 1);
                let (kind, end) = match ty {
                    Some(t) => (AliasKindView::Type(t), c + 1),
                    None => (AliasKindView::Enum(vs), e),
                };
                Some(
                    (
                        NodeView::Alias(
                            AliasView {
                                name,
                                desc: comment_texts(ts, i, c),
                                kind,
                                prefix: PrefixView { left: None, right: None },
                            },
                        ),
                        end,
                    ),
                )
            },
            _ => None,
        }
    } else {
        None
    }
}

/// The documented value at `i`: comments, the `@type` token, references, a
/// usage example where there is one, and the assignment that declares the
/// value.
pub open spec fn type_at(ts: Stream, i: int) -> Option<(NodeView, int)> {
    let c = comments_end(ts, i);
    if 0 <= c < ts.len() {
        match ts[c].0 {
            TokenView::Type(ty, d) => {
                let (refs, a) = sees_at(ts, c + 1);
                let (usage, b) = opt_usage_at(ts, a);
                if 0 <= b < ts.len() {
                    match ts[b].0 {
                        TokenView::Expr { prefix, name, op, kind } => Some(
                            (
                                NodeView::Type(
                                    TypeView {
                                        desc: (comment_texts(ts, i, c), d),
                                        prefix: PrefixView { left: prefix, right: prefix },
                                        kind,
                                        op,
                                        ty,
                                        see: SeeView { refs },
                                        usage,
                                    },
                                ),
                                b + 1,
                            ),
                        ),
                        _ => None,
                    }
                } else {
                    None
                }
            },
            _ => None,
        }
    } else {
        None
    }
}

/// The brief at `i`: the comments between its start and its end.
pub open spec fn brief_at(ts: Stream, i: int) -> Option<(NodeView, int)> {
    let e = comments_end(ts, i + 1);
    if 0 <= i < ts.len() && ts[i].0 is BriefStart && 0 <= e < ts.len() && ts[e].0 is BriefEnd {
        Some((NodeView::Brief(BriefView { desc: comment_texts(ts, i + 1, e) }), e + 1))
    } else {
        None
    }
}

/// The node that starts at `i`, and the place behind it.
pub open spec fn node_at(ts: Stream, i: int) -> Option<(NodeView, int)> {
    if !(0 <= i < ts.len()) {
        None
    } else {
        match ts[i].0 {
            TokenView::Module(name, desc) => Some(
                (NodeView::Module(ModuleView { name, desc }), i + 1),
            ),
            TokenView::Divider(c) => Some((NodeView::Divider(c), i + 1)),
            TokenView::Tag(n) => Some((NodeView::Tag(n), i + 1)),
            TokenView::Export(n) => Some((NodeView::Export(n), i + 1)),
            TokenView::Toc(n) => Some((NodeView::Toc(n), i + 1)),
            TokenView::BriefStart => brief_at(ts, i),
            _ => if func_at(ts, i) is Some {
                func_at(ts, i)
            } else if class_at(ts, i) is Some {
                class_at(ts, i)
            } else if alias_at(ts, i) is Some {
                alias_at(ts, i)
            } else {
                type_at(ts, i)
            },
        }
    }
}

/// The nodes of the stream from `i` on.
pub open spec fn nodes_from(ts: Stream, i: int) -> Seq<NodeView>
    decreases ts.len() - i,
{
    if 0 <= i < ts.len() {
        match node_at(ts, i) {
            Some((n, j)) => if i < j <= ts.len() {
                seq![n] + nodes_from(ts, j)
            } else {
                nodes_from(ts, i + 1)
            },
            None => nodes_from(ts, i + 1),
        }
    } else {
        Seq::empty()
    }
}

/// The spans of the tokens from `i` on that belong to no node.
pub open spec fn skipped_from(ts: Stream, i: int) -> Seq<Span>
    decreases ts.len() - i,
{
    if 0 <= i < ts.len() {
        match node_at(ts, i) {
            Some((n, j)) => if i < j <= ts.len() {
                skipped_from(ts, j)
            } else {
                seq![ts[i].1] + skipped_from(ts, i + 1)
            },
            None => seq![ts[i].1] + skipped_from(ts, i + 1),
        }
    } else {
        Seq::empty()
    }
}

/// The nodes of a token stream.
pub open spec fn nodes_of(ts: Stream) -> Seq<NodeView> {
    nodes_from(ts, 0)
}

/// The spans of the tokens of a stream that belong to no node.
pub open spec fn skipped_of(ts: Stream) -> Seq<Span> {
    skipped_from(ts, 0)
}

/// The end of the run of comment tokens at `i`.
pub fn skip_comments(ts: &Vec<(Token, Span)>, i: usize) -> (e: usize)
    requires
        i <= ts.len(),
    ensures
        e == comments_end(stream_view(*ts), i as int),
        i <= e <= ts.len(),
{
    let mut e: usize = i;
    loop
        invariant
            i <= e <= ts.len(),
            comments_end(stream_view(*ts), i as int) == comments_end(stream_view(*ts), e as int),
        decreases ts.len() - e,
    {
        if e >= ts.len() {
            return e;
        }
        match &ts[e].0 {
            Token::Comment(_) => {
                e += 1;
            },
            _ => {
                return e;
            },
        }
    }
}

/// The texts of the comment tokens from `i` up to `j`.
pub fn copy_comments(ts: &Vec<(Token, Span)>, i: usize, j: usize) -> (r: Vec<String>)
    requires
        i <= j <= ts.len(),
    ensures
        views(r) == comment_texts(stream_view(*ts), i as int, j as int),
{
    let mut r: Vec<String> = Vec::new();
    let mut k: usize = i;
    while k < j
        invariant
            i <= k <= j <= ts.len(),
            r.len() == k - i,
            forall|n: int| 0 <= n < r.len() ==> r[n]@ == comment_text(ts[i + n].0@),
        decreases j - k,
    {
        let text = match &ts[k].0 {
            Token::Comment(c) => c.clone(),
            _ => String::new(),
        };
        r.push(text);
        k += 1;
    }
    assert(views(r) =~= comment_texts(stream_view(*ts), i as int, j as int));
    r
}

/// A copy of an optional text.
pub fn copy_opt(o: &Option<String>) -> (r: Option<String>)
    ensures
        opt_view(r) == opt_view(*o),
{
    match o {
        Some(s) => Some(s.clone()),
        None => None,
    }
}

/// A description: the text behind a tag, where there is one, then further
/// lines.
pub fn noted(d: &Option<String>, lines: Vec<String>) -> (r: Vec<String>)
    ensures
        views(r) == with_note(opt_view(*d), views(lines)),
{
    match d {
        Some(d) => {
            let mut r: Vec<String> = Vec::new();
            let mut rest = lines;
            r.push(d.clone());
            r.append(&mut rest);
            assert(views(r) =~= seq![d@] + views(lines));
            r
        },
        None => lines,
    }
}

/// Reads the parameters at `i`.
pub fn read_params(ts: &Vec<(Token, Span)>, i: usize) -> (r: (Vec<Param>, usize))
    requires
        i <= ts.len(),
    ensures
        params_at(stream_view(*ts), i as int) == (views(r.0), r.1 as int),
        i <= r.1 <= ts.len(),
{
    let ghost sv = stream_view(*ts);
    let mut acc: Vec<Param> = Vec::new();
    let mut pos: usize = i;
    loop
        invariant
            sv == stream_view(*ts),
            i <= pos <= ts.len(),
            params_at(sv, i as int) == (
                views(acc) + params_at(sv, pos as int).0,
                params_at(sv, pos as int).1,
            ),
        decreases ts.len() - pos,
    {
        if pos >= ts.len() {
            assert(views(acc) + Seq::empty() == views(acc));
            return (acc, pos);
        }
        match &ts[pos].0 {
            Token::Param(name, ty, d) => {
                let e = skip_comments(ts, pos + 1);
                let lines = copy_comments(ts, pos + 1, e);
                let item = Param { name: name.copy(), ty: ty.copy(), desc: noted(d, lines) };
                let ghost before = views(acc);
                let ghost iv = item@;
                acc.push(item);
                proof {
                    assert(views(acc) =~= before + seq![iv]);
                    let rest = params_at(sv, e as int);
                    assert(before + (seq![iv] + rest.0) == (before + seq![iv]) + rest.0);
                }
                pos = e;
            },
            _ => {
                assert(views(acc) + Seq::empty() == views(acc));
                return (acc, pos);
            },
        }
    }
}

/// Reads the returned values at `i`.
pub fn read_returns(ts: &Vec<(Token, Span)>, i: usize) -> (r: (Vec<Return>, usize))
    requires
        i <= ts.len(),
    ensures
        returns_at(stream_view(*ts), i as int) == (views(r.0), r.1 as int),
        i <= r.1 <= ts.len(),
{
    let ghost sv = stream_view(*ts);
    let mut acc: Vec<Return> = Vec::new();
    let mut pos: usize = i;
    loop
        invariant
            sv == stream_view(*ts),
            i <= pos <= ts.len(),
            returns_at(sv, i as int) == (
                views(acc) + returns_at(sv, pos as int).0,
                returns_at(sv, pos as int).1,
            ),
        decreases ts.len() - pos,
    {
        if pos >= ts.len() {
            assert(views(acc) + Seq::empty() == views(acc));
            return (acc, pos);
        }
        match &ts[pos].0 {
            Token::Return(ty, name, d) => {
                let e = skip_comments(ts, pos + 1);
                let lines = copy_comments(ts, pos + 1, e);
                let item = Return { ty: ty.copy(), name: copy_opt(name), desc: noted(d, lines) };
                let ghost before = views(acc);
                let ghost iv = item@;
                acc.push(item);
                proof {
                    assert(views(acc) =~= before + seq![iv]);
                    let rest = returns_at(sv, e as int);
                    assert(before + (seq![iv] + rest.0) == (before + seq![iv]) + rest.0);
                }
                pos = e;
            },
            _ => {
                assert(views(acc) + Seq::empty() == views(acc));
                return (acc, pos);
            },
        }
    }
}

/// Reads the references at `i`.
pub fn read_sees(ts: &Vec<(Token, Span)>, i: usize) -> (r: (See, usize))
    requires
        i <= ts.len(),
    ensures
        sees_at(stream_view(*ts), i as int) == (r.0@.refs, r.1 as int),
        i <= r.1 <= ts.len(),
{
    let ghost sv = stream_view(*ts);
    let mut acc: Vec<String> = Vec::new();
    let mut pos: usize = i;
    loop
        invariant
            sv == stream_view(*ts),
            i <= pos <= ts.len(),
            sees_at(sv, i as int) == (
                views(acc) + sees_at(sv, pos as int).0,
                sees_at(sv, pos as int).1,
            ),
        decreases ts.len() - pos,
    {
        if pos >= ts.len() {
            assert(views(acc) + Seq::empty() == views(acc));
            return (See { refs: acc }, pos);
        }
        match &ts[pos].0 {
            Token::See(name) => {
                let ghost before = views(acc);
                acc.push(name.clone());
                proof {
                    assert(views(acc) =~= before + seq![name@]);
                    let rest = sees_at(sv, pos + 1);
                    assert(before + (seq![name@] + rest.0) == (before + seq![name@]) + rest.0);
                }
                pos += 1;
            },
            _ => {
                assert(views(acc) + Seq::empty() == views(acc));
                return (See { refs: acc }, pos);
            },
        }
    }
}

/// Reads the usage example at `i` where there is one.
pub fn read_usage(ts: &Vec<(Token, Span)>, i: usize) -> (r: (Option<Usage>, usize))
    requires
        i <= ts.len(),
    ensures
        opt_usage_at(stream_view(*ts), i as int) == (usage_view(r.0), r.1 as int),
        i <= r.1 <= ts.len(),
{
    if i >= ts.len() {
        return (None, i);
    }
    match &ts[i].0 {
        Token::UsageStart(lang) => {
            let e = skip_comments(ts, i + 1);
            let closed = e < ts.len() && match &ts[e].0 {
                Token::UsageEnd => true,
                _ => false,
            };
            if closed {
                let code = Code::MultiLine(copy_comments(ts, i + 1, e));
                (Some(Usage { lang: copy_opt(lang), code }), e + 1)
            } else {
                (None, i)
            }
        },
        Token::Usage(lang, code) => (
            Some(Usage { lang: copy_opt(lang), code: Code::InLine(code.clone()) }),
            i + 1,
        ),
        _ => (None, i),
    }
}

/// Reads the function at `i`.
pub fn read_func(ts: &Vec<(Token, Span)>, i: usize) -> (r: Option<(Node, usize)>)
    requires
        i <= ts.len(),
    ensures
        parsed_as(r, func_at(stream_view(*ts), i as int), i, ts.len()),
{
    let c = skip_comments(ts, i);
    let (params, a) = read_params(ts, c);
    let (rets, b) = read_returns(ts, a);
    let (see, d) = read_sees(ts, b);
    let (usage, e) = read_usage(ts, d);
    if e >= ts.len() {
        return None;
    }
    match &ts[e].0 {
        Token::Func { prefix, name, op, kind } => {
            let f = Func {
                prefix: Prefix { left: copy_opt(prefix), right: copy_opt(prefix) },
                kind: *kind,
                op: copy_ops(op),
                desc: copy_comments(ts, i, c),
                params,
                returns: rets,
                see,
                usage,
            };
            Some((Node::Func(f), e + 1))
        },
        _ => None,
    }
}

/// Whether a function read the node that the grammar gives at `i`.
pub open spec fn parsed_as(
    r: Option<(Node, usize)>,
    m: Option<(NodeView, int)>,
    i: usize,
    len: usize,
) -> bool {
    match r {
        Some((n, j)) => m == Some((n@, j as int)) && i < j <= len,
        None => m is None,
    }
}

/// Reads the fields at `i`.
pub fn read_fields(ts: &Vec<(Token, Span)>, i: usize) -> (r: (Vec<Field>, usize))
    requires
        i <= ts.len(),
    ensures
        fields_at(stream_view(*ts), i as int) == (views(r.0), r.1 as int),
        i <= r.1 <= ts.len(),
{
    let ghost sv = stream_view(*ts);
    let mut acc: Vec<Field> = Vec::new();
    let mut pos: usize = i;
    loop
        invariant
            sv == stream_view(*ts),
            i <= pos <= ts.len(),
            fields_at(sv, i as int) == (
                views(acc) + fields_at(sv, pos as int).0,
                fields_at(sv, pos as int).1,
            ),
        decreases ts.len() - pos,
    {
        let c = skip_comments(ts, pos);
        if c >= ts.len() {
            assert(views(acc) + Seq::empty() == views(acc));
            return (acc, pos);
        }
        match &ts[c].0 {
            Token::Field(scope, name, ty, d) => {
                let lines = copy_comments(ts, pos, c);
                let item = Field {
                    scope: *scope,
                    name: name.copy(),
                    ty: ty.copy(),
                    desc: noted(d, lines),
                };
                let ghost before = views(acc);
                let ghost iv = item@;
                acc.push(item);
                proof {
                    assert(views(acc) =~= before + seq![iv]);
                    let rest = fields_at(sv, c + 1);
                    assert(before + (seq![iv] + rest.0) == (before + seq![iv]) + rest.0);
                }
                pos = c + 1;
            },
            _ => {
                assert(views(acc) + Seq::empty() == views(acc));
                return (acc, pos);
            },
        }
    }
}

/// Reads the class at `i`.
pub fn read_class(ts: &Vec<(Token, Span)>, i: usize) -> (r: Option<(Node, usize)>)
    requires
        i <= ts.len(),
    ensures
        parsed_as(r, class_at(stream_view(*ts), i as int), i, ts.len()),
{
    let c = skip_comments(ts, i);
    if c >= ts.len() {
        return None;
    }
    match &ts[c].0 {
        Token::Class(name, parent, d) => {
            let (fields, a) = read_fields(ts, c + 1);
            let (see, b) = read_sees(ts, a);
            let class = Class {
                name: name.clone(),
                parent: copy_opt(parent),
                desc: noted(d, copy_comments(ts, i, c)),
                fields,
                see,
                prefix: Prefix { left: None, right: None },
            };
            Some((Node::Class(class), b))
        },
        _ => None,
    }
}

/// Reads the members of the run of variant tokens at `i`.
pub fn read_variants(ts: &Vec<(Token, Span)>, i: usize) -> (r: (
    Vec<(Member, Option<String>)>,
    usize,
))
    requires
        i <= ts.len(),
    ensures
        variants_at(stream_view(*ts), i as int) == (variants_view(r.0), r.1 as int),
        i <= r.1 <= ts.len(),
{
    let ghost sv = stream_view(*ts);
    let mut acc: Vec<(Member, Option<String>)> = Vec::new();
    let mut pos: usize = i;
    loop
        invariant
            sv == stream_view(*ts),
            i <= pos <= ts.len(),
            variants_at(sv, i as int) == (
                variants_view(acc) + variants_at(sv, pos as int).0,
                variants_at(sv, pos as int).1,
            ),
        decreases ts.len() - pos,
    {
        if pos >= ts.len() {
            assert(variants_view(acc) + Seq::empty() == variants_view(acc));
            return (acc, pos);
        }
        match &ts[pos].0 {
            Token::Variant(m, d) => {
                let ghost before = variants_view(acc);
                let ghost iv = (m@, opt_view(*d));
                acc.push((m.copy(), copy_opt(d)));
                proof {
                    assert(variants_view(acc) =~= before + seq![iv]);
                    let rest = variants_at(sv, pos + 1);
                    assert(before + (seq![iv] + rest.0) == (before + seq![iv]) + rest.0);
                }
                pos += 1;
            },
            _ => {
                assert(variants_view(acc) + Seq::empty() == variants_view(acc));
                return (acc, pos);
            },
        }
    }
}

/// Reads the alias at `i`.
pub fn read_alias(ts: &Vec<(Token, Span)>, i: usize) -> (r: Option<(Node, usize)>)
    requires
        i <= ts.len(),
    ensures
        parsed_as(r, alias_at(stream_view(*ts), i as int), i, ts.len()),
{
    let c = skip_comments(ts, i);
    if c >= ts.len() {
        return None;
    }
    match &ts[c].0 {
        Token::Alias(name, ty) => {
            let (kind, end) = match ty {
                Some(t) => (AliasKind::Type(t.copy()), c + 1),
                None => {
                    let (vs, e) = read_variants(ts, c + 1);
                    (AliasKind::Enum(vs), e)
                },
            };
            let alias = Alias {
                name: name.clone(),
                desc: copy_comments(ts, i, c),
                kind,
                prefix: Prefix { left: None, right: None },
            };
            Some((Node::Alias(alias), end))
        },
        _ => None,
    }
}

/// Reads the documented value at `i`.
pub fn read_type(ts: &Vec<(Token, Span)>, i: usize) -> (r: Option<(Node, usize)>)
    requires
        i <= ts.len(),
    ensures
        parsed_as(r, type_at(stream_view(*ts), i as int), i, ts.len()),
{
    let c = skip_comments(ts, i);
    if c >= ts.len() {
        return None;
    }
    match &ts[c].0 {
        Token::Type(ty, d) => {
            let (see, a) = read_sees(ts, c + 1);
            let (usage, b) = read_usage(ts, a);
            if b >= ts.len() {
                return None;
            }
            match &ts[b].0 {
                Token::Expr { prefix, name, op, kind } => {
                    let t = Type {
                        desc: (copy_comments(ts, i, c), copy_opt(d)),
                        prefix: Prefix { left: copy_opt(prefix), right: copy_opt(prefix) },
                        kind: *kind,
                        op: copy_ops(op),
                        ty: ty.copy(),
                        see,
                        usage,
                    };
                    Some((Node::Type(t), b + 1))
                },
                _ => None,
            }
        },
        _ => None,
    }
}

/// Reads the brief at `i`.
pub fn read_brief(ts: &Vec<(Token, Span)>, i: usize) -> (r: Option<(Node, usize)>)
    requires
        i < ts.len(),
    ensures
        parsed_as(r, brief_at(stream_view(*ts), i as int), i, ts.len()),
{
    let opened = match &ts[i].0 {
        Token::BriefStart => true,
        _ => false,
    };
    if !opened {
        return None;
    }
    let e = skip_comments(ts, i + 1);
    let closed = e < ts.len() && match &ts[e].0 {
        Token::BriefEnd => true,
        _ => false,
    };
    if closed {
        Some((Node::Brief(Brief { desc: copy_comments(ts, i + 1, e) }), e + 1))
    } else {
        None
    }
}

/// Reads the node that starts at `i`.
pub fn node_parser(ts: &Vec<(Token, Span)>, i: usize) -> (r: Option<(Node, usize)>)
    requires
        i <= ts.len(),
    ensures
        parsed_as(r, node_at(stream_view(*ts), i as int), i, ts.len()),
{
    if i >= ts.len() {
        return None;
    }
    match &ts[i].0 {
        Token::Module(name, desc) => Some(
            (Node::Module(Module { name: name.clone(), desc: copy_opt(desc) }), i + 1),
        ),
        Token::Divider(c) => Some((Node::Divider(Divider(*c)), i + 1)),
        Token::Tag(n) => Some((Node::Tag(Tag(n.clone())), i + 1)),
        Token::Export(n) => Some((Node::Export(n.clone()), i + 1)),
        Token::Toc(n) => Some((Node::Toc(n.clone()), i + 1)),
        Token::BriefStart => read_brief(ts, i),
        _ => {
            match read_func(ts, i) {
                Some(x) => {
                    return Some(x);
                },
                None => {},
            }
            match read_class(ts, i) {
                Some(x) => {
                    return Some(x);
                },
                None => {},
            }
            match read_alias(ts, i) {
                Some(x) => {
                    return Some(x);
                },
                None => {},
            }
            read_type(ts, i)
        },
    }
}

/// Parses a token stream: gives its nodes, in the order of the stream, and
/// the spans of the tokens that belong to no node.
pub fn parse_nodes(ts: &Vec<(Token, Span)>) -> (r: (Vec<Node>, Vec<Span>))
    ensures
        views(r.0) == nodes_of(stream_view(*ts)),
        r.1@ == skipped_of(stream_view(*ts)),
{
    let ghost sv = stream_view(*ts);
    let mut nodes: Vec<Node> = Vec::new();
    let mut skipped: Vec<Span> = Vec::new();
    let mut i: usize = 0;
    while i < ts.len()
        invariant
            sv == stream_view(*ts),
            i <= ts.len(),
            nodes_of(sv) == views(nodes) + nodes_from(sv, i as int),
            skipped_of(sv) == skipped@ + skipped_from(sv, i as int),
        decreases ts.len() - i,
    {
        match node_parser(ts, i) {
            Some((n, j)) => {
                let ghost before = views(nodes);
                let ghost nv = n@;
                nodes.push(n);
                proof {
                    assert(views(nodes) =~= before + seq![nv]);
                    let rest = nodes_from(sv, j as int);
                    assert(before + (seq![nv] + rest) == (before + seq![nv]) + rest);
                }
                i = j;
            },
            None => {
                let ghost before = skipped@;
                let span = ts[i].1;
                skipped.push(span);
                proof {
                    let rest = skipped_from(sv, i + 1);
                    assert(before + (seq![span] + rest) == (before + seq![span]) + rest);
                }
                i += 1;
            },
        }
    }
    proof {
        assert(views(nodes) + Seq::empty() == views(nodes));
        assert(skipped@ + Seq::empty() == skipped@);
    }
    (nodes, skipped)
}

/// Whether a node has the qualifiers that parsing gives it: the tag of a
/// function or a documented value shows the qualifier that the source
/// declares, and a class or an alias has none.
pub open spec fn fresh_prefix(n: NodeView) -> bool {
    match n {
        NodeView::Func(f) => f.prefix.right == f.prefix.left,
        NodeView::Type(t) => t.prefix.right == t.prefix.left,
        NodeView::Class(c) => c.prefix.left is None && c.prefix.right is None,
        NodeView::Alias(a) => a.prefix.left is None && a.prefix.right is None,
        _ => true,
    }
}

/// Every node that is read from a place of a token stream has the
/// qualifiers that parsing gives.
pub proof fn lemma_node_prefix(ts: Stream, i: int)
    requires
        node_at(ts, i) is Some,
    ensures
        fresh_prefix(node_at(ts, i).unwrap().0),
{
}

/// Every node of a token stream has the qualifiers that parsing gives.
pub proof fn lemma_nodes_prefix(ts: Stream, i: int, k: int)
    requires
        0 <= k < nodes_from(ts, i).len(),
    ensures
        fresh_prefix(nodes_from(ts, i)[k]),
    decreases ts.len() - i,
{
    if 0 <= i < ts.len() {
        match node_at(ts, i) {
            Some((n, j)) => {
                if i < j <= ts.len() {
                    lemma_node_prefix(ts, i);
                    if k > 0 {
                        lemma_nodes_prefix(ts, j, k - 1);
                        assert(nodes_from(ts, i)[k] == nodes_from(ts, j)[k - 1]);
                    }
                } else {
                    lemma_nodes_prefix(ts, i + 1, k);
                }
            },
            None => {
                lemma_nodes_prefix(ts, i + 1, k);
            },
        }
    }
}

} // verus!
