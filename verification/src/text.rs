//! Characters and strings: the character classes of the grammar, scanning
//! over a buffer of characters, and building strings.

use vstd::prelude::*;
use vstd::std_specs::iter::IteratorSpec;
use vstd::string::StringSliceAdditionalSpecFns;

verus! {

/// Whether a character is whitespace: one of the characters with Unicode's
/// `White_Space` property.
pub open spec fn is_space(c: char) -> bool {
    ('\u{9}' <= c && c <= '\u{d}') || c == ' ' || c == '\u{85}' || c == '\u{a0}' || c == '\u{1680}'
        || ('\u{2000}' <= c && c <= '\u{200a}') || c == '\u{2028}' || c == '\u{2029}' || c
        == '\u{202f}' || c == '\u{205f}' || c == '\u{3000}'
}

/// Whether a character is alphabetic or numeric in Unicode's sense.
pub uninterp spec fn is_alnum(c: char) -> bool;

/// Whether a character may stand in a tag name or a type name. Of the ASCII
/// characters these are the letters, the digits, `.`, `_` and `-`; of the
/// others, the alphabetic and the numeric ones, none of which is
/// whitespace.
pub open spec fn is_name_char(c: char) -> bool {
    if c <= '\u{7f}' {
        is_word_char(c) || c == '.' || c == '-'
    } else {
        is_alnum(c) && !is_space(c)
    }
}

/// `char::is_alphanumeric`: the answer depends on the character alone and is
/// what [`is_alnum`] names.
pub assume_specification[ char::is_alphanumeric ](c: char) -> (b: bool)
    ensures
        b == is_alnum(c),
;

/// `String::push`: the character is appended at the end.
pub assume_specification[ std::string::String::push ](s: &mut std::string::String, c: char)
    ensures
        final(s)@ == old(s)@.push(c),
;

/// The characters of a string, in order.
pub fn chars_of(s: &str) -> (v: Vec<char>)
    ensures
        v@ == s@,
{
    let mut v: Vec<char> = Vec::new();
    for c in it: s.chars()
        invariant
            v@ == it.seq().take(it.index() as int),
            it.seq() == s@,
    {
        v.push(c);
    }
    v
}

/// The views of the elements of a vector, in order.
pub open spec fn views<T: View>(v: Vec<T>) -> Seq<T::V> {
    Seq::new(v.len() as nat, |i: int| v[i]@)
}

/// The parts joined into one text, with the separator between neighbours.
pub open spec fn join(parts: Seq<Seq<char>>, sep: Seq<char>) -> Seq<char>
    decreases parts.len(),
{
    if parts.len() == 0 {
        Seq::empty()
    } else if parts.len() == 1 {
        parts[0]
    } else {
        join(parts.drop_last(), sep) + sep + parts.last()
    }
}

/// The characters of `v` from `from` up to `to`, as a string.
pub fn string_from(v: &Vec<char>, from: usize, to: usize) -> (r: String)
    requires
        from <= to <= v.len(),
    ensures
        r@ == v@.subrange(from as int, to as int),
{
    let mut r = String::new();
    let mut i: usize = from;
    while i < to
        invariant
            from <= i <= to <= v.len(),
            r@ == v@.subrange(from as int, i as int),
        decreases to - i,
    {
        r.push(v[i]);
        i += 1;
        assert(r@ == v@.subrange(from as int, i as int));
    }
    r
}

/// Appends the parts to `out`, with the separator between neighbours.
pub fn push_joined(out: &mut String, parts: &Vec<String>, sep: &str)
    ensures
        final(out)@ == old(out)@ + join(views(*parts), sep@),
{
    let mut i: usize = 0;
    while i < parts.len()
        invariant
            i <= parts.len(),
            out@ == old(out)@ + join(views(*parts).take(i as int), sep@),
        decreases parts.len() - i,
    {
        if i > 0 {
            out.append(sep);
        }
        out.append(parts[i].as_str());
        proof {
            let all = views(*parts);
            assert(all.take(i + 1).drop_last() == all.take(i as int));
            assert(all.take(i + 1).last() == parts[i as int]@);
        }
        i += 1;
    }
    assert(views(*parts).take(i as int) == views(*parts));
}

/// The parts joined into one string, with the separator between neighbours.
pub fn joined(parts: &Vec<String>, sep: &str) -> (r: String)
    ensures
        r@ == join(views(*parts), sep@),
{
    let mut r = String::new();
    push_joined(&mut r, parts, sep);
    r
}

/// Whether a character ends a line: a line feed, a carriage return, or one
/// of the rarer line breaks.
pub open spec fn is_break(c: char) -> bool {
    c == '\n' || c == '\r' || c == '\x0B' || c == '\x0C' || c == '\u{85}' || c == '\u{2028}' || c
        == '\u{2029}'
}

/// Whether a character may start an identifier: an ASCII letter or an
/// underscore.
pub open spec fn is_word_start(c: char) -> bool {
    ('a' <= c && c <= 'z') || ('A' <= c && c <= 'Z') || c == '_'
}

/// Whether a character may continue an identifier: an ASCII letter, an
/// ASCII digit or an underscore.
pub open spec fn is_word_char(c: char) -> bool {
    is_word_start(c) || ('0' <= c && c <= '9')
}

/// The sets of characters that the grammar scans runs of.
#[derive(Debug, Clone, Copy, PartialEq, Eq, Structural)]
pub enum Class {
    /// Whitespace of any kind, line breaks included.
    Space,
    /// A space or a tab.
    Blank,
    /// What may continue an identifier.
    Word,
    /// What a tag name or a type name is made of: letters and digits of any
    /// script, `.`, `_` and `-`.
    Name,
    /// Anything but a line break.
    Line,
    /// Anything but a backtick.
    Ticked,
    /// Anything but a single quote.
    Quoted,
}

/// Whether a character belongs to a class.
pub open spec fn in_class(cl: Class, c: char) -> bool {
    match cl {
        Class::Space => is_space(c),
        Class::Blank => c == ' ' || c == '\t',
        Class::Word => is_word_char(c),
        Class::Name => is_name_char(c),
        Class::Line => !is_break(c),
        Class::Ticked => c != '`',
        Class::Quoted => c != '\'',
    }
}

/// The end of the longest run of characters of a class that starts at `i`.
pub open spec fn run_end(s: Seq<char>, i: int, cl: Class) -> int
    decreases s.len() - i,
{
    if 0 <= i < s.len() && in_class(cl, s[i]) {
        run_end(s, i + 1, cl)
    } else {
        i
    }
}

/// A run ends inside the text, holds only characters of its class, and
/// stops at the first character that is not of the class.
pub proof fn lemma_run_end(s: Seq<char>, i: int, cl: Class)
    requires
        0 <= i <= s.len(),
    ensures
        i <= run_end(s, i, cl) <= s.len(),
        forall|k: int| i <= k < run_end(s, i, cl) ==> in_class(cl, #[trigger] s[k]),
        run_end(s, i, cl) < s.len() ==> !in_class(cl, s[run_end(s, i, cl)]),
    decreases s.len() - i,
{
    if i < s.len() && in_class(cl, s[i]) {
        lemma_run_end(s, i + 1, cl);
    }
}

/// Whether the text `lit` stands in `s` at `i`.
pub open spec fn has(s: Seq<char>, i: int, lit: Seq<char>) -> bool {
    0 <= i && i + lit.len() <= s.len() && s.subrange(i, i + lit.len()) == lit
}

/// Whether a character may start an identifier.
pub fn word_start(c: char) -> (b: bool)
    ensures
        b == is_word_start(c),
{
    ('a' <= c && c <= 'z') || ('A' <= c && c <= 'Z') || c == '_'
}

/// Whether a character is whitespace.
pub fn space(c: char) -> (b: bool)
    ensures
        b == is_space(c),
{
    ('\u{9}' <= c && c <= '\u{d}') || c == ' ' || c == '\u{85}' || c == '\u{a0}' || c == '\u{1680}'
        || ('\u{2000}' <= c && c <= '\u{200a}') || c == '\u{2028}' || c == '\u{2029}' || c
        == '\u{202f}' || c == '\u{205f}' || c == '\u{3000}'
}

/// Whether a character may stand in a tag name or a type name.
pub fn name_char(c: char) -> (b: bool)
    ensures
        b == is_name_char(c),
{
    if c <= '\u{7f}' {
        word_start(c) || ('0' <= c && c <= '9') || c == '.' || c == '-'
    } else {
        c.is_alphanumeric() && !space(c)
    }
}

/// Whether a character ends a line.
pub fn line_break(c: char) -> (b: bool)
    ensures
        b == is_break(c),
{
    c == '\n' || c == '\r' || c == '\x0B' || c == '\x0C' || c == '\u{85}' || c == '\u{2028}' || c
        == '\u{2029}'
}

/// Whether a character belongs to a class.
pub fn is_in(cl: Class, c: char) -> (b: bool)
    ensures
        b == in_class(cl, c),
{
    match cl {
        Class::Space => space(c),
        Class::Blank => c == ' ' || c == '\t',
        Class::Word => word_start(c) || ('0' <= c && c <= '9'),
        Class::Name => name_char(c),
        Class::Line => !line_break(c),
        Class::Ticked => c != '`',
        Class::Quoted => c != '\'',
    }
}

/// The end of the longest run of characters of a class that starts at `i`.
pub fn scan(s: &Vec<char>, i: usize, cl: Class) -> (j: usize)
    requires
        i <= s.len(),
    ensures
        j == run_end(s@, i as int, cl),
        i <= j <= s.len(),
{
    let mut j: usize = i;
    while j < s.len() && is_in(cl, s[j])
        invariant
            i <= j <= s.len(),
            run_end(s@, i as int, cl) == run_end(s@, j as int, cl),
        decreases s.len() - j,
    {
        j += 1;
    }
    j
}

/// Whether the text `lit` stands in `s` at `i`.
pub fn starts(s: &Vec<char>, i: usize, lit: &str) -> (b: bool)
    requires
        i <= s.len(),
    ensures
        b == has(s@, i as int, lit@),
{
    let n = lit.unicode_len();
    if n > s.len() - i {
        return false;
    }
    let mut k: usize = 0;
    while k < n
        invariant
            k <= n,
            n == lit@.len(),
            i + n <= s.len(),
            s@.subrange(i as int, i + k) == lit@.take(k as int),
        decreases n - k,
    {
        if s[i + k] != lit.get_char(k) {
            assert(s@.subrange(i as int, i + n)[k as int] != lit@[k as int]);
            return false;
        }
        assert(s@.subrange(i as int, i + k + 1) == s@.subrange(i as int, i + k).push(s@[i + k]));
        assert(lit@.take(k + 1) == lit@.take(k as int).push(lit@[k as int]));
        k += 1;
    }
    assert(lit@.take(n as int) == lit@);
    true
}

/// Whether the characters of `s` from `from` up to `to` spell `lit`.
pub fn spells(s: &Vec<char>, from: usize, to: usize, lit: &str) -> (b: bool)
    requires
        from <= to <= s.len(),
    ensures
        b == (s@.subrange(from as int, to as int) == lit@),
{
    let n = lit.unicode_len();
    if n != to - from {
        return false;
    }
    starts(s, from, lit)
}

/// A text of `n` times the character `c`.
pub open spec fn repeated(c: char, n: nat) -> Seq<char> {
    Seq::new(n, |i: int| c)
}

/// A text of `n` spaces.
pub open spec fn spaces(n: nat) -> Seq<char> {
    repeated(' ', n)
}

/// The text, with as many `fill` characters before it as bring it to
/// `width` characters. A text that is as long or longer stays as it is.
pub open spec fn right_aligned(text: Seq<char>, width: nat, fill: char) -> Seq<char> {
    if text.len() >= width {
        text
    } else {
        repeated(fill, (width - text.len()) as nat) + text
    }
}

/// The number of bytes that a text takes in UTF-8.
pub open spec fn byte_len(text: Seq<char>) -> nat {
    vstd::utf8::encode_utf8(text).len()
}

/// `a - b`, or zero where `b` is the larger.
pub open spec fn minus(a: nat, b: nat) -> nat {
    if a >= b {
        (a - b) as nat
    } else {
        0
    }
}

/// Appends `n` times the character `c`.
pub fn push_repeated(out: &mut String, c: char, n: usize)
    ensures
        final(out)@ == old(out)@ + repeated(c, n as nat),
{
    let mut i: usize = 0;
    while i < n
        invariant
            i <= n,
            out@ == old(out)@ + repeated(c, i as nat),
        decreases n - i,
    {
        out.push(c);
        i += 1;
        assert(out@ =~= old(out)@ + repeated(c, i as nat));
    }
}

/// Appends the text, brought to `width` characters by `fill` characters
/// before it.
pub fn push_right(out: &mut String, text: &str, width: usize, fill: char)
    ensures
        final(out)@ == old(out)@ + right_aligned(text@, width as nat, fill),
{
    let n = text.unicode_len();
    if n < width {
        push_repeated(out, fill, width - n);
    }
    out.append(text);
    assert(out@ =~= old(out)@ + right_aligned(text@, width as nat, fill));
}

/// The number of bytes that a text takes in UTF-8.
pub fn bytes_in(text: &str) -> (n: usize)
    ensures
        n == byte_len(text@),
{
    text.as_bytes().len()
}

/// The position of the first line feed of a text at or after `i`, or the
/// length of the text.
pub open spec fn feed_at(s: Seq<char>, i: int) -> int
    decreases s.len() - i,
{
    if 0 <= i < s.len() && s[i] != '\n' {
        feed_at(s, i + 1)
    } else {
        i
    }
}

/// Whether a text holds nothing but whitespace.
pub open spec fn is_blank(s: Seq<char>) -> bool {
    forall|k: int| 0 <= k < s.len() ==> is_space(#[trigger] s[k])
}

/// A text without the whitespace at its end.
pub open spec fn trimmed_end(s: Seq<char>) -> Seq<char>
    decreases s.len(),
{
    if s.len() > 0 && is_space(s.last()) {
        trimmed_end(s.drop_last())
    } else {
        s
    }
}

/// The lines of a text from `i` on, each behind the prefix, or behind the
/// prefix without the whitespace at its end where the line is blank. The
/// line feeds stay where they are.
pub open spec fn indented_from(s: Seq<char>, i: int, prefix: Seq<char>) -> Seq<char>
    decreases s.len() - i,
{
    if 0 <= i < s.len() {
        let e = feed_at(s, i);
        let line = s.subrange(i, e);
        let piece = if is_blank(line) {
            trimmed_end(prefix) + line
        } else {
            prefix + line
        };
        if i <= e < s.len() {
            piece + seq!['\n'] + indented_from(s, e + 1, prefix)
        } else {
            piece
        }
    } else {
        Seq::empty()
    }
}

/// A text with the prefix before each of its lines.
pub open spec fn indented(s: Seq<char>, prefix: Seq<char>) -> Seq<char> {
    indented_from(s, 0, prefix)
}

/// `textwrap::indent`: each line of the text stands behind the prefix, a
/// line of nothing but whitespace behind the prefix without the whitespace
/// at its end; an empty text stays empty, and a line feed at the end stays
/// the end.
#[verifier::external_body]
pub(crate) fn indent(text: &str, prefix: &str) -> (r: String)
    ensures
        r@ == indented(text@, prefix@),
{
    textwrap::indent(text, prefix)
}

} // verus!
