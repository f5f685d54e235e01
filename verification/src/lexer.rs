//! The lexer: from the text of a Lua source file to the tokens of its
//! annotations and declarations, in the order of the source.
//!
//! The lexer works line by line. Behind each token the rest of its line is
//! dropped, and a line that is neither an annotation nor a known declaration
//! gives no token. An annotation whose tag is known and whose body does not
//! fit is malformed: lexing goes on behind it, and all malformed annotations
//! are reported together in place of the tokens.
//!
//! Between the start and the end of a brief or of a block of usage, every
//! comment line is a comment as it stands, whatever it holds. A line that is
//! no comment ends such a block.

use crate::decl::{decl_at, read_decl};
use crate::tags::{
    alias_at, brief_at, class_at, divider_at, export_at, field_tag_at, line_end, mod_at,
    param_at, read_alias, read_brief, read_class, read_divider, read_export, read_field_tag,
    read_mod, read_param, read_return, read_see, read_tag_name, read_toc, read_type, read_usage,
    read_variant, return_at, see_at, tag_name_at, toc_at, type_at, usage_at, variant_at,
};
use crate::text::{chars_of, run_end, scan, spells, string_from, Class};
use crate::token::{stream_view, LexError, Span, Token, TokenView};
use vstd::prelude::*;

verus! {

/// What the lexer finds at one place of the source.
pub enum Lexeme {
    /// A token.
    Token(TokenView),
    /// An annotation whose body does not fit its tag.
    Malformed,
    /// A line that is of no interest.
    Nothing,
}

/// Whether three dashes stand at `i`.
pub open spec fn dashes_at(s: Seq<char>, i: int) -> bool {
    0 <= i && i + 2 < s.len() && s[i] == '-' && s[i + 1] == '-' && s[i + 2] == '-'
}

/// The start of what follows the annotation lines at `a`: the first place,
/// at the start of a line's text, where no three dashes stand.
pub open spec fn notes_end(s: Seq<char>, a: int) -> int
    decreases s.len() - a,
{
    let n = run_end(s, line_end(s, a), Class::Space);
    if dashes_at(s, a) && a < n <= s.len() {
        notes_end(s, n)
    } else {
        a
    }
}

/// Where lexing goes on behind a visibility marker whose word ends at `q`:
/// behind the annotation lines that follow the marker and the one line
/// behind them, which holds the declaration that the marker hides.
pub open spec fn hidden_end(s: Seq<char>, q: int) -> int {
    line_end(s, notes_end(s, run_end(s, q, Class::Space)))
}

/// The body of the tag `w`, read at `q`, where `w` is a tag that gives a
/// token of its own. `None` where `w` is no such tag.
pub open spec fn tag_body(s: Seq<char>, w: Seq<char>, q: int) -> Option<Option<(TokenView, int)>> {
    if w == "brief"@ {
        Some(brief_at(s, q))
    } else if w == "toc"@ {
        Some(toc_at(s, q))
    } else if w == "mod"@ {
        Some(mod_at(s, q))
    } else if w == "divider"@ {
        Some(divider_at(s, q))
    } else if w == "param"@ {
        Some(param_at(s, q))
    } else if w == "return"@ {
        Some(return_at(s, q))
    } else if w == "class"@ {
        Some(class_at(s, q))
    } else if w == "field"@ {
        Some(field_tag_at(s, q))
    } else if w == "alias"@ {
        Some(alias_at(s, q))
    } else if w == "type"@ {
        Some(type_at(s, q))
    } else if w == "tag"@ {
        Some(tag_name_at(s, q))
    } else if w == "see"@ {
        Some(see_at(s, q))
    } else if w == "usage"@ {
        Some(usage_at(s, q))
    } else if w == "export"@ {
        Some(export_at(s, q))
    } else {
        None
    }
}

/// Whether a word is one of the markers that hide the declaration behind
/// them.
pub open spec fn hides(w: Seq<char>) -> bool {
    w == "private"@ || w == "protected"@ || w == "package"@
}

/// The annotation whose `@` stands at `p - 1`, and where lexing goes on
/// behind it.
pub open spec fn tag_at(s: Seq<char>, p: int) -> (Lexeme, int) {
    let q = run_end(s, p, Class::Word);
    let w = s.subrange(p, q);
    if hides(w) {
        (Lexeme::Token(TokenView::Skip), hidden_end(s, q))
    } else if w == "public"@ {
        (Lexeme::Token(TokenView::Skip), line_end(s, q))
    } else {
        match tag_body(s, w, q) {
            Some(Some((t, e))) => (
                Lexeme::Token(t),
                if w == "export"@ {
                    s.len() as int
                } else {
                    line_end(s, e)
                },
            ),
            Some(None) => (Lexeme::Malformed, line_end(s, p)),
            None => (
                Lexeme::Token(TokenView::Comment(s.subrange(p - 1, line_end(s, p - 1)))),
                line_end(s, p - 1),
            ),
        }
    }
}

/// What stands at `i`, and where lexing goes on behind it.
///
/// Behind three dashes: an annotation where `@` follows, a variant where
/// `|` and a well-formed variant follow, else a comment that holds the rest
/// of the line. Elsewhere: a declaration, or nothing. Behind the statement
/// or the annotation that names the export nothing more is read.
pub open spec fn lexeme_at(s: Seq<char>, i: int) -> (Lexeme, int) {
    if dashes_at(s, i) {
        let p = i + 3;
        let comment = (
            Lexeme::Token(TokenView::Comment(s.subrange(p, line_end(s, p)))),
            line_end(s, p),
        );
        if p < s.len() && s[p] == '@' {
            tag_at(s, p + 1)
        } else if p < s.len() && s[p] == '|' {
            match variant_at(s, p + 1) {
                Some((t, e)) => (Lexeme::Token(t), line_end(s, e)),
                None => comment,
            }
        } else {
            comment
        }
    } else {
        match decl_at(s, i) {
            Some((t, e)) => (
                Lexeme::Token(t),
                if t is Export {
                    s.len() as int
                } else {
                    line_end(s, e)
                },
            ),
            None => (Lexeme::Nothing, line_end(s, i)),
        }
    }
}

/// What the lexer is in the middle of.
#[derive(Debug, Clone, Copy, PartialEq, Eq, Structural)]
pub enum Mode {
    /// Nothing: each line is read for what it is.
    Plain,
    /// A brief: comment lines are text up to `---@brief ]]`.
    Brief,
    /// A block of usage: comment lines are code up to `---@usage ]]`.
    Usage,
}

/// Whether a token ends the block that the lexer is in.
pub open spec fn closes(mode: Mode, t: TokenView) -> bool {
    (mode == Mode::Brief && t is BriefEnd) || (mode == Mode::Usage && t is UsageEnd)
}

/// Whether the line at `i` is text of the block that the lexer is in: a
/// comment line that does not end the block.
pub open spec fn in_block(s: Seq<char>, i: int, mode: Mode) -> bool {
    mode != Mode::Plain && dashes_at(s, i) && match lexeme_at(s, i).0 {
        Lexeme::Token(t) => !closes(mode, t),
        _ => true,
    }
}

/// What stands at `i` for a lexer in the given mode, and where lexing goes
/// on behind it: inside a block a comment with the text of the line, else
/// what [`lexeme_at`] gives.
pub open spec fn lexeme_in(s: Seq<char>, i: int, mode: Mode) -> (Lexeme, int) {
    if in_block(s, i, mode) {
        (
            Lexeme::Token(TokenView::Comment(s.subrange(i + 3, line_end(s, i + 3)))),
            line_end(s, i + 3),
        )
    } else {
        lexeme_at(s, i)
    }
}

/// The mode of the lexer behind what stands at `i`.
pub open spec fn mode_behind(s: Seq<char>, i: int, mode: Mode) -> Mode {
    if in_block(s, i, mode) {
        mode
    } else {
        match lexeme_at(s, i).0 {
            Lexeme::Token(TokenView::BriefStart) => Mode::Brief,
            Lexeme::Token(TokenView::UsageStart(_)) => Mode::Usage,
            _ => Mode::Plain,
        }
    }
}

/// Where lexing goes on behind what stands at `i`: always further on.
pub open spec fn advance(s: Seq<char>, i: int, mode: Mode) -> int {
    let n = lexeme_in(s, i, mode).1;
    if i < n <= s.len() {
        n
    } else {
        i + 1
    }
}

/// The span of what stands at `i`.
pub open spec fn span_at(s: Seq<char>, i: int, mode: Mode) -> Span {
    Span { start: i as usize, end: advance(s, i, mode) as usize }
}

/// The tokens of the source from `i` on, each with its span.
pub open spec fn tokens_from(s: Seq<char>, i: int, mode: Mode) -> Seq<(TokenView, Span)>
    decreases s.len() - i,
{
    let a = run_end(s, i, Class::Space);
    if 0 <= i <= a < s.len() {
        let rest = tokens_from(s, advance(s, a, mode), mode_behind(s, a, mode));
        match lexeme_in(s, a, mode).0 {
            Lexeme::Token(t) => seq![(t, span_at(s, a, mode))] + rest,
            _ => rest,
        }
    } else {
        Seq::empty()
    }
}

/// The malformed annotations of the source from `i` on.
pub open spec fn errors_from(s: Seq<char>, i: int, mode: Mode) -> Seq<LexError>
    decreases s.len() - i,
{
    let a = run_end(s, i, Class::Space);
    if 0 <= i <= a < s.len() {
        let rest = errors_from(s, advance(s, a, mode), mode_behind(s, a, mode));
        match lexeme_in(s, a, mode).0 {
            Lexeme::Malformed => seq![LexError { span: span_at(s, a, mode) }] + rest,
            _ => rest,
        }
    } else {
        Seq::empty()
    }
}

/// The tokens of a source text.
pub open spec fn tokens_of(s: Seq<char>) -> Seq<(TokenView, Span)> {
    tokens_from(s, 0, Mode::Plain)
}

/// The malformed annotations of a source text.
pub open spec fn errors_of(s: Seq<char>) -> Seq<LexError> {
    errors_from(s, 0, Mode::Plain)
}

/// What the lexer read at one place of the source.
pub enum Lexed {
    Token(Token),
    Malformed,
    Nothing,
}

impl View for Lexed {
    type V = Lexeme;

    open spec fn view(&self) -> Lexeme {
        match self {
            Lexed::Token(t) => Lexeme::Token(t@),
            Lexed::Malformed => Lexeme::Malformed,
            Lexed::Nothing => Lexeme::Nothing,
        }
    }
}

/// Reads the start of what follows the annotation lines at `a`.
fn skip_notes(s: &Vec<char>, a: usize) -> (r: usize)
    requires
        a <= s.len(),
    ensures
        r == notes_end(s@, a as int),
        a <= r <= s.len(),
{
    let mut pos: usize = a;
    loop
        invariant
            a <= pos <= s.len(),
            notes_end(s@, a as int) == notes_end(s@, pos as int),
        decreases s.len() - pos,
    {
        let dashes = pos < s.len() && s.len() - pos > 2 && s[pos] == '-' && s[pos + 1] == '-'
            && s[pos + 2] == '-';
        if !dashes {
            return pos;
        }
        let e = scan(s, pos, Class::Line);
        let n = scan(s, e, Class::Space);
        if n > pos {
            pos = n;
        } else {
            return pos;
        }
    }
}

/// Reads the body of the tag whose word runs from `p` up to `q`.
fn read_tag_body(s: &Vec<char>, p: usize, q: usize) -> (r: Option<Option<(Token, usize)>>)
    requires
        p <= q <= s.len(),
    ensures
        match r {
            Some(b) => tag_body(s@, s@.subrange(p as int, q as int), q as int) is Some
                && crate::tags::lexed(
                b,
                tag_body(s@, s@.subrange(p as int, q as int), q as int).unwrap(),
                s@.len(),
            ),
            None => tag_body(s@, s@.subrange(p as int, q as int), q as int) is None,
        },
{
    if spells(s, p, q, "brief") {
        Some(read_brief(s, q))
    } else if spells(s, p, q, "toc") {
        Some(read_toc(s, q))
    } else if spells(s, p, q, "mod") {
        Some(read_mod(s, q))
    } else if spells(s, p, q, "divider") {
        Some(read_divider(s, q))
    } else if spells(s, p, q, "param") {
        Some(read_param(s, q))
    } else if spells(s, p, q, "return") {
        Some(read_return(s, q))
    } else if spells(s, p, q, "class") {
        Some(read_class(s, q))
    } else if spells(s, p, q, "field") {
        Some(read_field_tag(s, q))
    } else if spells(s, p, q, "alias") {
        Some(read_alias(s, q))
    } else if spells(s, p, q, "type") {
        Some(read_type(s, q))
    } else if spells(s, p, q, "tag") {
        Some(read_tag_name(s, q))
    } else if spells(s, p, q, "see") {
        Some(read_see(s, q))
    } else if spells(s, p, q, "usage") {
        Some(read_usage(s, q))
    } else if spells(s, p, q, "export") {
        Some(read_export(s, q))
    } else {
        None
    }
}

/// Reads the annotation whose `@` stands at `p - 1`.
fn read_tag(s: &Vec<char>, p: usize) -> (r: (Lexed, usize))
    requires
        1 <= p <= s.len(),
    ensures
        tag_at(s@, p as int) == (r.0@, r.1 as int),
        r.1 <= s.len(),
{
    let q = scan(s, p, Class::Word);
    if spells(s, p, q, "private") || spells(s, p, q, "protected") || spells(s, p, q, "package") {
        let a = scan(s, q, Class::Space);
        let b = skip_notes(s, a);
        (Lexed::Token(Token::Skip), scan(s, b, Class::Line))
    } else if spells(s, p, q, "public") {
        (Lexed::Token(Token::Skip), scan(s, q, Class::Line))
    } else {
        match read_tag_body(s, p, q) {
            Some(Some((t, e))) => {
                let next = if spells(s, p, q, "export") {
                    s.len()
                } else {
                    scan(s, e, Class::Line)
                };
                (Lexed::Token(t), next)
            },
            Some(None) => (Lexed::Malformed, scan(s, p, Class::Line)),
            None => {
                let e = scan(s, p - 1, Class::Line);
                (Lexed::Token(Token::Comment(string_from(s, p - 1, e))), e)
            },
        }
    }
}

/// Reads what stands at `i`.
pub fn read_lexeme(s: &Vec<char>, i: usize) -> (r: (Lexed, usize))
    requires
        i < s.len(),
    ensures
        lexeme_at(s@, i as int) == (r.0@, r.1 as int),
        r.1 <= s.len(),
{
    let dashes = s.len() - i > 2 && s[i] == '-' && s[i + 1] == '-' && s[i + 2] == '-';
    if dashes {
        let p = i + 3;
        if p < s.len() && s[p] == '@' {
            return read_tag(s, p + 1);
        }
        if p < s.len() && s[p] == '|' {
            match read_variant(s, p + 1) {
                Some((t, e)) => {
                    return (Lexed::Token(t), scan(s, e, Class::Line));
                },
                None => {},
            }
        }
        let e = scan(s, p, Class::Line);
        (Lexed::Token(Token::Comment(string_from(s, p, e))), e)
    } else {
        match read_decl(s, i) {
            Some((t, e)) => {
                let is_export = match &t {
                    Token::Export(_) => true,
                    _ => false,
                };
                let next = if is_export {
                    s.len()
                } else {
                    scan(s, e, Class::Line)
                };
                (Lexed::Token(t), next)
            },
            None => (Lexed::Nothing, scan(s, i, Class::Line)),
        }
    }
}

/// Reads what stands at `i` for a lexer in the given mode, and gives the
/// mode behind it.
pub fn read_lexeme_in(s: &Vec<char>, i: usize, mode: Mode) -> (r: (Lexed, usize, Mode))
    requires
        i < s.len(),
    ensures
        lexeme_in(s@, i as int, mode) == (r.0@, r.1 as int),
        r.1 <= s.len(),
        r.2 == mode_behind(s@, i as int, mode),
{
    let (found, next) = read_lexeme(s, i);
    let dashes = s.len() - i > 2 && s[i] == '-' && s[i + 1] == '-' && s[i + 2] == '-';
    let closing = match &found {
        Lexed::Token(Token::BriefEnd) => matches!(mode, Mode::Brief),
        Lexed::Token(Token::UsageEnd) => matches!(mode, Mode::Usage),
        _ => false,
    };
    if !matches!(mode, Mode::Plain) && dashes && !closing {
        let e = scan(s, i + 3, Class::Line);
        (Lexed::Token(Token::Comment(string_from(s, i + 3, e))), e, mode)
    } else {
        let behind = match &found {
            Lexed::Token(Token::BriefStart) => Mode::Brief,
            Lexed::Token(Token::UsageStart(_)) => Mode::Usage,
            _ => Mode::Plain,
        };
        (found, next, behind)
    }
}

/// Lexes a Lua source text.
///
/// Gives the tokens of the annotations and declarations, in the order of
/// the source and each with its span, where no annotation is malformed;
/// else every malformed annotation, in the order of the source.
pub fn lexer(src: &str) -> (r: Result<Vec<(Token, Span)>, Vec<LexError>>)
    ensures
        match r {
            Ok(ts) => errors_of(src@).len() == 0 && stream_view(ts) == tokens_of(src@),
            Err(es) => es.len() > 0 && es@ == errors_of(src@),
        },
{
    let s = chars_of(src);
    let mut tokens: Vec<(Token, Span)> = Vec::new();
    let mut errors: Vec<LexError> = Vec::new();
    let mut i: usize = 0;
    let mut mode = Mode::Plain;
    loop
        invariant
            i <= s.len(),
            s@ == src@,
            tokens_of(s@) == stream_view(tokens) + tokens_from(s@, i as int, mode),
            errors_of(s@) == errors@ + errors_from(s@, i as int, mode),
        ensures
            tokens_of(s@) == stream_view(tokens),
            errors_of(s@) == errors@,
        decreases s.len() - i,
    {
        let a = scan(&s, i, Class::Space);
        if a >= s.len() {
            proof {
                assert(stream_view(tokens) + Seq::empty() == stream_view(tokens));
                assert(errors@ + Seq::empty() == errors@);
            }
            break;
        }
        let (found, raw, behind) = read_lexeme_in(&s, a, mode);
        let next = if raw > a {
            raw
        } else {
            a + 1
        };
        let span = Span { start: a, end: next };
        let ghost toks = stream_view(tokens);
        let ghost errs = errors@;
        match found {
            Lexed::Token(t) => {
                let ghost tv = t@;
                tokens.push((t, span));
                proof {
                    assert(stream_view(tokens) == toks + seq![(tv, span)]);
                    let rest = tokens_from(s@, next as int, behind);
                    assert(toks + (seq![(tv, span)] + rest) == (toks + seq![(tv, span)]) + rest);
                }
            },
            Lexed::Malformed => {
                errors.push(LexError { span });
                proof {
                    assert(errors@ == errs + seq![LexError { span }]);
                    let rest = errors_from(s@, next as int, behind);
                    assert(errs + (seq![LexError { span }] + rest) == (errs + seq![
                        LexError { span },
                    ]) + rest);
                }
            },
            Lexed::Nothing => {},
        }
        i = next;
        mode = behind;
    }
    if errors.len() > 0 {
        Err(errors)
    } else {
        Ok(tokens)
    }
}

} // verus!
