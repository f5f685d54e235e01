//! Annotation lines: what stands behind the three dashes of a comment.
//!
//! A line that starts with `@` and a known tag is read by that tag's rule
//! and gives a token, or is malformed. A line that starts with `|` is a
//! variant of an enumeration. Any other line, an unknown tag included, is a
//! comment and holds the text behind the dashes as it stands.

use crate::text::{
    has, is_break, is_word_start, lemma_run_end, line_break, run_end, scan, spells, starts, string_from,
    word_start, Class,
};
use crate::token::{
    opt_view, Member, MemberView, Name, NameView, Scope, Token, TokenView,
};
use crate::ty::{read_ty, ty_at, MAX_DEPTH};
use vstd::prelude::*;

verus! {

/// The end of the blanks at `i`, where at least one blank stands at `i`.
pub open spec fn gap(s: Seq<char>, i: int) -> Option<int> {
    if 0 <= i < s.len() && (s[i] == ' ' || s[i] == '\t') {
        Some(run_end(s, i, Class::Blank))
    } else {
        None
    }
}

/// The end of the line that `i` is in: the position of its line break, or
/// the end of the text.
pub open spec fn line_end(s: Seq<char>, i: int) -> int {
    run_end(s, i, Class::Line)
}

/// The description behind a tag's body: where blanks stand at `i`, the rest
/// of the line behind them.
pub open spec fn note_at(s: Seq<char>, i: int) -> Option<Seq<char>> {
    match gap(s, i) {
        Some(b) => Some(s.subrange(b, line_end(s, b))),
        None => None,
    }
}

/// The end of the identifier at `i`, where one starts at `i`.
pub open spec fn ident_end(s: Seq<char>, i: int) -> Option<int> {
    if 0 <= i < s.len() && is_word_start(s[i]) {
        Some(run_end(s, i, Class::Word))
    } else {
        None
    }
}

/// The end of the name at `i`, where at least one character of a name
/// stands at `i`.
pub open spec fn name_end(s: Seq<char>, i: int) -> Option<int> {
    if run_end(s, i, Class::Name) > i {
        Some(run_end(s, i, Class::Name))
    } else {
        None
    }
}

/// Whether nothing but blanks stands between `i` and the end of its line.
pub open spec fn rest_is_blank(s: Seq<char>, i: int) -> bool {
    let g = run_end(s, i, Class::Blank);
    g >= s.len() || is_break(s[g])
}

/// An identifier with a question mark behind it where it is optional.
pub open spec fn name_at(s: Seq<char>, i: int) -> Option<(NameView, int)> {
    match ident_end(s, i) {
        Some(j) => if j < s.len() && s[j] == '?' {
            Some((NameView::Opt(s.subrange(i, j)), j + 1))
        } else {
            Some((NameView::Req(s.subrange(i, j)), j))
        },
        None => None,
    }
}

/// A quoted literal or a backticked identifier.
pub open spec fn member_at(s: Seq<char>, i: int) -> Option<(MemberView, int)> {
    if !(0 <= i < s.len()) {
        None
    } else if s[i] == '\'' {
        let k = run_end(s, i + 1, Class::Quoted);
        if k < s.len() {
            Some((MemberView::Literal(s.subrange(i + 1, k)), k + 1))
        } else {
            None
        }
    } else if s[i] == '`' {
        let k = run_end(s, i + 1, Class::Ticked);
        if k < s.len() {
            Some((MemberView::Ident(s.subrange(i + 1, k)), k + 1))
        } else {
            None
        }
    } else {
        None
    }
}

/// The visibility that a word names.
pub open spec fn scope_of(w: Seq<char>) -> Option<Scope> {
    if w == "public"@ {
        Some(Scope::Public)
    } else if w == "private"@ {
        Some(Scope::Private)
    } else if w == "protected"@ {
        Some(Scope::Protected)
    } else if w == "package"@ {
        Some(Scope::Package)
    } else {
        None
    }
}

/// `@brief [[` and `@brief ]]`.
pub open spec fn brief_at(s: Seq<char>, q: int) -> Option<(TokenView, int)> {
    match gap(s, q) {
        None => None,
        Some(b) => if has(s, b, "]]"@) {
            Some((TokenView::BriefEnd, b))
        } else if has(s, b, "[["@) {
            Some((TokenView::BriefStart, b))
        } else {
            None
        },
    }
}

/// `@toc <name>`.
pub open spec fn toc_at(s: Seq<char>, q: int) -> Option<(TokenView, int)> {
    match gap(s, q) {
        None => None,
        Some(b) => match name_end(s, b) {
            Some(e) => Some((TokenView::Toc(s.subrange(b, e)), e)),
            None => None,
        },
    }
}

/// `@tag <name>`.
pub open spec fn tag_name_at(s: Seq<char>, q: int) -> Option<(TokenView, int)> {
    match gap(s, q) {
        None => None,
        Some(b) => match name_end(s, b) {
            Some(e) => Some((TokenView::Tag(s.subrange(b, e)), e)),
            None => None,
        },
    }
}

/// `@mod <name> [desc]`.
pub open spec fn mod_at(s: Seq<char>, q: int) -> Option<(TokenView, int)> {
    match gap(s, q) {
        None => None,
        Some(b) => match name_end(s, b) {
            Some(e) => Some((TokenView::Module(s.subrange(b, e), note_at(s, e)), e)),
            None => None,
        },
    }
}

/// `@divider <char>`: any one character that is neither a blank nor a line
/// break.
pub open spec fn divider_at(s: Seq<char>, q: int) -> Option<(TokenView, int)> {
    match gap(s, q) {
        None => None,
        Some(b) => if b < s.len() && !is_break(s[b]) {
            Some((TokenView::Divider(s[b]), b + 1))
        } else {
            None
        },
    }
}

/// `@param <name[?]|...> <type> [desc]`.
pub open spec fn param_at(s: Seq<char>, q: int) -> Option<(TokenView, int)> {
    match gap(s, q) {
        None => None,
        Some(b) => {
            let name = if has(s, b, "..."@) {
                Some((NameView::Req("..."@), b + "..."@.len()))
            } else {
                name_at(s, b)
            };
            match name {
                None => None,
                Some((n, j)) => match gap(s, j) {
                    None => None,
                    Some(t) => match ty_at(s, t, MAX_DEPTH as nat) {
                        None => None,
                        Some((ty, e)) => Some((TokenView::Param(n, ty, note_at(s, e)), e)),
                    },
                },
            }
        },
    }
}

/// `@return <type> [<name> [desc] | #<desc>]`.
pub open spec fn return_at(s: Seq<char>, q: int) -> Option<(TokenView, int)> {
    match gap(s, q) {
        None => None,
        Some(b) => match ty_at(s, b, MAX_DEPTH as nat) {
            None => None,
            Some((ty, e)) => {
                let g = run_end(s, e, Class::Blank);
                if rest_is_blank(s, e) {
                    Some((TokenView::Return(ty, None, None), e))
                } else if g <= e {
                    None
                } else if s[g] == '#' {
                    Some(
                        (
                            TokenView::Return(
                                ty,
                                None,
                                Some(s.subrange(g + 1, line_end(s, g + 1))),
                            ),
                            g,
                        ),
                    )
                } else {
                    match ident_end(s, g) {
                        Some(j) => Some(
                            (TokenView::Return(ty, Some(s.subrange(g, j)), note_at(s, j)), j),
                        ),
                        None => None,
                    }
                }
            },
        },
    }
}

/// `@class [(exact)] <name>[: <parent>] [desc]`.
pub open spec fn class_at(s: Seq<char>, q: int) -> Option<(TokenView, int)> {
    match gap(s, q) {
        None => None,
        Some(b) => {
            let from = if has(s, b, "(exact)"@) {
                gap(s, b + "(exact)"@.len())
            } else {
                Some(b)
            };
            match from {
                None => None,
                Some(n) => match name_end(s, n) {
                    None => None,
                    Some(e) => {
                        let c = run_end(s, e, Class::Blank);
                        let d = run_end(s, c + 1, Class::Blank);
                        if 0 <= c < s.len() && s[c] == ':' && name_end(s, d) is Some {
                            let pe = name_end(s, d).unwrap();
                            Some(
                                (
                                    TokenView::Class(
                                        s.subrange(n, e),
                                        Some(s.subrange(d, pe)),
                                        note_at(s, pe),
                                    ),
                                    pe,
                                ),
                            )
                        } else {
                            Some((TokenView::Class(s.subrange(n, e), None, note_at(s, e)), e))
                        }
                    },
                },
            }
        },
    }
}

/// `@field [public|protected|private|package] <name[?]> <type> [desc]`.
pub open spec fn field_tag_at(s: Seq<char>, q: int) -> Option<(TokenView, int)> {
    match gap(s, q) {
        None => None,
        Some(b) => {
            let w = run_end(s, b, Class::Word);
            let head = match scope_of(s.subrange(b, w)) {
                Some(sc) => match gap(s, w) {
                    Some(n) => Some((sc, n)),
                    None => None,
                },
                None => Some((Scope::Public, b)),
            };
            match head {
                None => None,
                Some((sc, n)) => match name_at(s, n) {
                    None => None,
                    Some((name, j)) => match gap(s, j) {
                        None => None,
                        Some(t) => match ty_at(s, t, MAX_DEPTH as nat) {
                            None => None,
                            Some((ty, e)) => Some(
                                (TokenView::Field(sc, name, ty, note_at(s, e)), e),
                            ),
                        },
                    },
                },
            }
        },
    }
}

/// `@alias <name> [<type>]`.
pub open spec fn alias_at(s: Seq<char>, q: int) -> Option<(TokenView, int)> {
    match gap(s, q) {
        None => None,
        Some(b) => match name_end(s, b) {
            None => None,
            Some(e) => {
                let g = run_end(s, e, Class::Blank);
                if rest_is_blank(s, e) {
                    Some((TokenView::Alias(s.subrange(b, e), None), e))
                } else if g <= e {
                    None
                } else {
                    match ty_at(s, g, MAX_DEPTH as nat) {
                        Some((ty, end)) => Some(
                            (TokenView::Alias(s.subrange(b, e), Some(ty)), end),
                        ),
                        None => None,
                    }
                }
            },
        },
    }
}

/// `@type <type> [desc]`.
pub open spec fn type_at(s: Seq<char>, q: int) -> Option<(TokenView, int)> {
    match gap(s, q) {
        None => None,
        Some(b) => match ty_at(s, b, MAX_DEPTH as nat) {
            None => None,
            Some((ty, e)) => Some((TokenView::Type(ty, note_at(s, e)), e)),
        },
    }
}

/// `@see <name>`: the rest of the line behind the blanks.
pub open spec fn see_at(s: Seq<char>, q: int) -> Option<(TokenView, int)> {
    match gap(s, q) {
        None => None,
        Some(b) => Some((TokenView::See(s.subrange(b, line_end(s, b))), b)),
    }
}

/// ``@usage [lang] `<code>` ``, `@usage [lang] [[` and `@usage ]]`.
pub open spec fn usage_at(s: Seq<char>, q: int) -> Option<(TokenView, int)> {
    match gap(s, q) {
        None => None,
        Some(b) => if has(s, b, "]]"@) {
            Some((TokenView::UsageEnd, b))
        } else {
            let named = ident_end(s, b) is Some && gap(s, ident_end(s, b).unwrap()) is Some;
            let lang = if named {
                Some(s.subrange(b, ident_end(s, b).unwrap()))
            } else {
                None
            };
            let r = if named {
                gap(s, ident_end(s, b).unwrap()).unwrap()
            } else {
                b
            };
            if 0 <= r < s.len() && s[r] == '`' {
                let k = run_end(s, r + 1, Class::Ticked);
                if k < s.len() {
                    Some((TokenView::Usage(lang, s.subrange(r + 1, k)), k + 1))
                } else {
                    None
                }
            } else if has(s, r, "[["@) {
                Some((TokenView::UsageStart(lang), r))
            } else {
                None
            }
        },
    }
}

/// `@export <name>`.
pub open spec fn export_at(s: Seq<char>, q: int) -> Option<(TokenView, int)> {
    match gap(s, q) {
        None => None,
        Some(b) => match ident_end(s, b) {
            Some(j) => Some((TokenView::Export(s.subrange(b, j)), j)),
            None => None,
        },
    }
}

/// `| '<literal>' [# desc]` and ``| `<ident>` [# desc]``, read from behind
/// the bar.
pub open spec fn variant_at(s: Seq<char>, q: int) -> Option<(TokenView, int)> {
    match gap(s, q) {
        None => None,
        Some(b) => match member_at(s, b) {
            None => None,
            Some((m, e)) => {
                let desc = match gap(s, e) {
                    Some(h) => if h < s.len() && s[h] == '#' {
                        let d = run_end(s, h + 1, Class::Blank);
                        Some(s.subrange(d, line_end(s, d)))
                    } else {
                        None
                    },
                    None => None,
                };
                Some((TokenView::Variant(m, desc), e))
            },
        },
    }
}

/// Whether a function read the token that the grammar gives.
pub open spec fn lexed(r: Option<(Token, usize)>, m: Option<(TokenView, int)>, len: nat) -> bool {
    match r {
        Some((t, e)) => m == Some((t@, e as int)) && e <= len,
        None => m is None,
    }
}

/// The end of the blanks at `i`, where at least one blank stands at `i`.
pub fn skip_gap(s: &Vec<char>, i: usize) -> (r: Option<usize>)
    requires
        i <= s.len(),
    ensures
        match r {
            Some(b) => gap(s@, i as int) == Some(b as int) && i < b <= s.len(),
            None => gap(s@, i as int) is None,
        },
{
    if i < s.len() && (s[i] == ' ' || s[i] == '\t') {
        let b = scan(s, i, Class::Blank);
        proof {
            lemma_run_end(s@, i + 1, Class::Blank);
        }
        Some(b)
    } else {
        None
    }
}

/// The description behind a tag's body.
pub fn read_note(s: &Vec<char>, i: usize) -> (r: Option<String>)
    requires
        i <= s.len(),
    ensures
        opt_view(r) == note_at(s@, i as int),
{
    match skip_gap(s, i) {
        Some(b) => {
            let e = scan(s, b, Class::Line);
            Some(string_from(s, b, e))
        },
        None => None,
    }
}

/// The end of the identifier at `i`, where one starts at `i`.
pub fn read_ident(s: &Vec<char>, i: usize) -> (r: Option<usize>)
    requires
        i <= s.len(),
    ensures
        match r {
            Some(j) => ident_end(s@, i as int) == Some(j as int) && i < j <= s.len(),
            None => ident_end(s@, i as int) is None,
        },
{
    if i < s.len() && word_start(s[i]) {
        let j = scan(s, i, Class::Word);
        proof {
            lemma_run_end(s@, i + 1, Class::Word);
        }
        Some(j)
    } else {
        None
    }
}

/// The end of the name at `i`, where a name starts at `i`.
pub fn read_name_end(s: &Vec<char>, i: usize) -> (r: Option<usize>)
    requires
        i <= s.len(),
    ensures
        match r {
            Some(j) => name_end(s@, i as int) == Some(j as int) && i < j <= s.len(),
            None => name_end(s@, i as int) is None,
        },
{
    let j = scan(s, i, Class::Name);
    if j > i {
        Some(j)
    } else {
        None
    }
}

/// Whether nothing but blanks stands between `i` and the end of its line.
pub fn blank_rest(s: &Vec<char>, i: usize) -> (b: bool)
    requires
        i <= s.len(),
    ensures
        b == rest_is_blank(s@, i as int),
{
    let g = scan(s, i, Class::Blank);
    g >= s.len() || line_break(s[g])
}

/// An identifier with a question mark behind it where it is optional.
pub fn read_name(s: &Vec<char>, i: usize) -> (r: Option<(Name, usize)>)
    requires
        i <= s.len(),
    ensures
        match r {
            Some((n, j)) => name_at(s@, i as int) == Some((n@, j as int)) && i < j <= s.len(),
            None => name_at(s@, i as int) is None,
        },
{
    match read_ident(s, i) {
        Some(j) => {
            let text = string_from(s, i, j);
            if j < s.len() && s[j] == '?' {
                Some((Name::Opt(text), j + 1))
            } else {
                Some((Name::Req(text), j))
            }
        },
        None => None,
    }
}

/// A quoted literal or a backticked identifier.
pub fn read_member(s: &Vec<char>, i: usize) -> (r: Option<(Member, usize)>)
    requires
        i <= s.len(),
    ensures
        match r {
            Some((m, j)) => member_at(s@, i as int) == Some((m@, j as int)) && i < j <= s.len(),
            None => member_at(s@, i as int) is None,
        },
{
    if i >= s.len() {
        None
    } else if s[i] == '\'' {
        let k = scan(s, i + 1, Class::Quoted);
        if k < s.len() {
            Some((Member::Literal(string_from(s, i + 1, k)), k + 1))
        } else {
            None
        }
    } else if s[i] == '`' {
        let k = scan(s, i + 1, Class::Ticked);
        if k < s.len() {
            Some((Member::Ident(string_from(s, i + 1, k)), k + 1))
        } else {
            None
        }
    } else {
        None
    }
}

/// The visibility that the word from `from` up to `to` names.
pub fn read_scope(s: &Vec<char>, from: usize, to: usize) -> (r: Option<Scope>)
    requires
        from <= to <= s.len(),
    ensures
        r == scope_of(s@.subrange(from as int, to as int)),
{
    if spells(s, from, to, "public") {
        Some(Scope::Public)
    } else if spells(s, from, to, "private") {
        Some(Scope::Private)
    } else if spells(s, from, to, "protected") {
        Some(Scope::Protected)
    } else if spells(s, from, to, "package") {
        Some(Scope::Package)
    } else {
        None
    }
}

/// Reads the body of `@brief`.
pub fn read_brief(s: &Vec<char>, q: usize) -> (r: Option<(Token, usize)>)
    requires
        q <= s.len(),
    ensures
        lexed(r, brief_at(s@, q as int), s@.len()),
{
    match skip_gap(s, q) {
        None => None,
        Some(b) => if starts(s, b, "]]") {
            Some((Token::BriefEnd, b))
        } else if starts(s, b, "[[") {
            Some((Token::BriefStart, b))
        } else {
            None
        },
    }
}

/// Reads the body of `@toc`.
pub fn read_toc(s: &Vec<char>, q: usize) -> (r: Option<(Token, usize)>)
    requires
        q <= s.len(),
    ensures
        lexed(r, toc_at(s@, q as int), s@.len()),
{
    match skip_gap(s, q) {
        None => None,
        Some(b) => match read_name_end(s, b) {
            Some(e) => Some((Token::Toc(string_from(s, b, e)), e)),
            None => None,
        },
    }
}

/// Reads the body of `@tag`.
pub fn read_tag_name(s: &Vec<char>, q: usize) -> (r: Option<(Token, usize)>)
    requires
        q <= s.len(),
    ensures
        lexed(r, tag_name_at(s@, q as int), s@.len()),
{
    match skip_gap(s, q) {
        None => None,
        Some(b) => match read_name_end(s, b) {
            Some(e) => Some((Token::Tag(string_from(s, b, e)), e)),
            None => None,
        },
    }
}

/// Reads the body of `@mod`.
pub fn read_mod(s: &Vec<char>, q: usize) -> (r: Option<(Token, usize)>)
    requires
        q <= s.len(),
    ensures
        lexed(r, mod_at(s@, q as int), s@.len()),
{
    match skip_gap(s, q) {
        None => None,
        Some(b) => match read_name_end(s, b) {
            Some(e) => Some((Token::Module(string_from(s, b, e), read_note(s, e)), e)),
            None => None,
        },
    }
}

/// Reads the body of `@divider`.
pub fn read_divider(s: &Vec<char>, q: usize) -> (r: Option<(Token, usize)>)
    requires
        q <= s.len(),
    ensures
        lexed(r, divider_at(s@, q as int), s@.len()),
{
    match skip_gap(s, q) {
        None => None,
        Some(b) => if b < s.len() && !line_break(s[b]) {
            Some((Token::Divider(s[b]), b + 1))
        } else {
            None
        },
    }
}

/// Reads the body of `@param`.
pub fn read_param(s: &Vec<char>, q: usize) -> (r: Option<(Token, usize)>)
    requires
        q <= s.len(),
    ensures
        lexed(r, param_at(s@, q as int), s@.len()),
{
    let b = match skip_gap(s, q) {
        None => {
            return None;
        },
        Some(b) => b,
    };
    let name = if starts(s, b, "...") {
        Some((Name::Req(String::from_str("...")), b + "...".unicode_len()))
    } else {
        read_name(s, b)
    };
    let (n, j) = match name {
        None => {
            return None;
        },
        Some(x) => x,
    };
    let t = match skip_gap(s, j) {
        None => {
            return None;
        },
        Some(t) => t,
    };
    match read_ty(s, t, MAX_DEPTH) {
        None => None,
        Some((ty, e)) => Some((Token::Param(n, ty, read_note(s, e)), e)),
    }
}

/// Reads the body of `@return`.
pub fn read_return(s: &Vec<char>, q: usize) -> (r: Option<(Token, usize)>)
    requires
        q <= s.len(),
    ensures
        lexed(r, return_at(s@, q as int), s@.len()),
{
    let b = match skip_gap(s, q) {
        None => {
            return None;
        },
        Some(b) => b,
    };
    let (ty, e) = match read_ty(s, b, MAX_DEPTH) {
        None => {
            return None;
        },
        Some(x) => x,
    };
    let g = scan(s, e, Class::Blank);
    if blank_rest(s, e) {
        Some((Token::Return(ty, None, None), e))
    } else if g <= e {
        None
    } else if s[g] == '#' {
        let end = scan(s, g + 1, Class::Line);
        Some((Token::Return(ty, None, Some(string_from(s, g + 1, end))), g))
    } else {
        match read_ident(s, g) {
            Some(j) => Some((Token::Return(ty, Some(string_from(s, g, j)), read_note(s, j)), j)),
            None => None,
        }
    }
}

/// Reads the body of `@class`.
pub fn read_class(s: &Vec<char>, q: usize) -> (r: Option<(Token, usize)>)
    requires
        q <= s.len(),
    ensures
        lexed(r, class_at(s@, q as int), s@.len()),
{
    let b = match skip_gap(s, q) {
        None => {
            return None;
        },
        Some(b) => b,
    };
    let from = if starts(s, b, "(exact)") {
        skip_gap(s, b + "(exact)".unicode_len())
    } else {
        Some(b)
    };
    let n = match from {
        None => {
            return None;
        },
        Some(n) => n,
    };
    let e = match read_name_end(s, n) {
        None => {
            return None;
        },
        Some(e) => e,
    };
    let name = string_from(s, n, e);
    let c = scan(s, e, Class::Blank);
    if c < s.len() && s[c] == ':' {
        let d = scan(s, c + 1, Class::Blank);
        match read_name_end(s, d) {
            Some(pe) => Some(
                (Token::Class(name, Some(string_from(s, d, pe)), read_note(s, pe)), pe),
            ),
            None => Some((Token::Class(name, None, read_note(s, e)), e)),
        }
    } else {
        Some((Token::Class(name, None, read_note(s, e)), e))
    }
}

/// Reads the body of `@field`.
pub fn read_field_tag(s: &Vec<char>, q: usize) -> (r: Option<(Token, usize)>)
    requires
        q <= s.len(),
    ensures
        lexed(r, field_tag_at(s@, q as int), s@.len()),
{
    let b = match skip_gap(s, q) {
        None => {
            return None;
        },
        Some(b) => b,
    };
    let w = scan(s, b, Class::Word);
    let head = match read_scope(s, b, w) {
        Some(sc) => match skip_gap(s, w) {
            Some(n) => Some((sc, n)),
            None => None,
        },
        None => Some((Scope::Public, b)),
    };
    let (sc, n) = match head {
        None => {
            return None;
        },
        Some(x) => x,
    };
    let (name, j) = match read_name(s, n) {
        None => {
            return None;
        },
        Some(x) => x,
    };
    let t = match skip_gap(s, j) {
        None => {
            return None;
        },
        Some(t) => t,
    };
    match read_ty(s, t, MAX_DEPTH) {
        None => None,
        Some((ty, e)) => Some((Token::Field(sc, name, ty, read_note(s, e)), e)),
    }
}

/// Reads the body of `@alias`.
pub fn read_alias(s: &Vec<char>, q: usize) -> (r: Option<(Token, usize)>)
    requires
        q <= s.len(),
    ensures
        lexed(r, alias_at(s@, q as int), s@.len()),
{
    let b = match skip_gap(s, q) {
        None => {
            return None;
        },
        Some(b) => b,
    };
    let e = match read_name_end(s, b) {
        None => {
            return None;
        },
        Some(e) => e,
    };
    let g = scan(s, e, Class::Blank);
    if blank_rest(s, e) {
        Some((Token::Alias(string_from(s, b, e), None), e))
    } else if g <= e {
        None
    } else {
        match read_ty(s, g, MAX_DEPTH) {
            Some((ty, end)) => Some((Token::Alias(string_from(s, b, e), Some(ty)), end)),
            None => None,
        }
    }
}

/// Reads the body of `@type`.
pub fn read_type(s: &Vec<char>, q: usize) -> (r: Option<(Token, usize)>)
    requires
        q <= s.len(),
    ensures
        lexed(r, type_at(s@, q as int), s@.len()),
{
    match skip_gap(s, q) {
        None => None,
        Some(b) => match read_ty(s, b, MAX_DEPTH) {
            None => None,
            Some((ty, e)) => Some((Token::Type(ty, read_note(s, e)), e)),
        },
    }
}

/// Reads the body of `@see`.
pub fn read_see(s: &Vec<char>, q: usize) -> (r: Option<(Token, usize)>)
    requires
        q <= s.len(),
    ensures
        lexed(r, see_at(s@, q as int), s@.len()),
{
    match skip_gap(s, q) {
        None => None,
        Some(b) => {
            let e = scan(s, b, Class::Line);
            Some((Token::See(string_from(s, b, e)), b))
        },
    }
}

/// Reads the body of `@usage`.
pub fn read_usage(s: &Vec<char>, q: usize) -> (r: Option<(Token, usize)>)
    requires
        q <= s.len(),
    ensures
        lexed(r, usage_at(s@, q as int), s@.len()),
{
    let b = match skip_gap(s, q) {
        None => {
            return None;
        },
        Some(b) => b,
    };
    if starts(s, b, "]]") {
        return Some((Token::UsageEnd, b));
    }
    let (lang, r) = match read_ident(s, b) {
        Some(j) => match skip_gap(s, j) {
            Some(g) => (Some(string_from(s, b, j)), g),
            None => (None, b),
        },
        None => (None, b),
    };
    if r < s.len() && s[r] == '`' {
        let k = scan(s, r + 1, Class::Ticked);
        if k < s.len() {
            Some((Token::Usage(lang, string_from(s, r + 1, k)), k + 1))
        } else {
            None
        }
    } else if starts(s, r, "[[") {
        Some((Token::UsageStart(lang), r))
    } else {
        None
    }
}

/// Reads the body of `@export`.
pub fn read_export(s: &Vec<char>, q: usize) -> (r: Option<(Token, usize)>)
    requires
        q <= s.len(),
    ensures
        lexed(r, export_at(s@, q as int), s@.len()),
{
    match skip_gap(s, q) {
        None => None,
        Some(b) => match read_ident(s, b) {
            Some(j) => Some((Token::Export(string_from(s, b, j)), j)),
            None => None,
        },
    }
}

/// Reads a variant of an enumeration from behind its bar.
pub fn read_variant(s: &Vec<char>, q: usize) -> (r: Option<(Token, usize)>)
    requires
        q <= s.len(),
    ensures
        lexed(r, variant_at(s@, q as int), s@.len()),
{
    let b = match skip_gap(s, q) {
        None => {
            return None;
        },
        Some(b) => b,
    };
    match read_member(s, b) {
        None => None,
        Some((m, e)) => {
            let desc = match skip_gap(s, e) {
                Some(h) => if h < s.len() && s[h] == '#' {
                    let d = scan(s, h + 1, Class::Blank);
                    let end = scan(s, d, Class::Line);
                    Some(string_from(s, d, end))
                } else {
                    None
                },
                None => None,
            };
            Some((Token::Variant(m, desc), e))
        },
    }
}

} // verus!
