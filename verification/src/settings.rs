//! What a caller can choose: which help tags carry the module's name, and
//! how the help text is laid out.

use crate::text::{chars_of, spells};
use vstd::prelude::*;

verus! {

/// How the tables of parameters, fields and returned values are laid out.
#[derive(Debug, Clone, Copy, PartialEq, Eq, Structural)]
pub enum Layout {
    /// Name, type and description each in a column of its own.
    Default,
    /// The description behind the type in one column; the lines that
    /// follow its first are indented by the number given.
    Compact(u8),
    /// Name, type and description in one column; the lines that follow
    /// the first are indented by the number given.
    Mini(u8),
}

impl Default for Layout {
    fn default() -> (r: Layout)
        ensures
            r == Layout::Default,
    {
        Layout::Default
    }
}

/// Which help tags are written with the module's name in place of the name
/// that the source declares.
#[derive(Debug, Clone, Copy, PartialEq, Eq, Structural)]
pub struct Rename {
    /// The tags of functions.
    pub func: bool,
    /// The tags of aliases.
    pub alias: bool,
    /// The tags of classes.
    pub class: bool,
    /// The tags of documented values.
    pub ty: bool,
}

impl Default for Rename {
    fn default() -> (r: Rename)
        ensures
            r == (Rename { func: false, alias: false, class: false, ty: false }),
    {
        Rename { func: false, alias: false, class: false, ty: false }
    }
}

/// The settings of a help file.
#[derive(Debug, Clone, Copy, PartialEq, Eq, Structural)]
pub struct Settings {
    /// Write the tag of a function with the module's name.
    pub prefix_func: bool,
    /// Write the tag of an alias with the module's name.
    pub prefix_alias: bool,
    /// Write the tag of a class with the module's name.
    pub prefix_class: bool,
    /// Write the tag of a documented value with the module's name.
    pub prefix_type: bool,
    /// Show the type of an optional parameter or field as `nil|<type>`.
    pub expand_opt: bool,
    /// The layout of tables.
    pub layout: Layout,
    /// The width of one step of indentation.
    pub indent_width: usize,
}

impl Default for Settings {
    fn default() -> (r: Settings)
        ensures
            r == (Settings {
                prefix_func: false,
                prefix_alias: false,
                prefix_class: false,
                prefix_type: false,
                expand_opt: false,
                layout: Layout::Default,
                indent_width: 4,
            }),
    {
        Settings {
            prefix_func: false,
            prefix_alias: false,
            prefix_class: false,
            prefix_type: false,
            expand_opt: false,
            layout: Layout::Default,
            indent_width: 4,
        }
    }
}

impl Settings {
    /// Whether text can be indented with these settings: three times the
    /// indent width is a number of the machine.
    pub open spec fn fits(&self) -> bool {
        self.indent_width * 3 <= usize::MAX
    }

    /// Whether text can be indented with these settings.
    pub fn is_fit(&self) -> (b: bool)
        ensures
            b == self.fits(),
    {
        self.indent_width <= usize::MAX / 3
    }

    /// Whether every help file can be laid out with these settings: text
    /// can be indented, and the indent width is at least one, which the
    /// tables need.
    pub open spec fn usable(&self) -> bool {
        1 <= self.indent_width && self.fits()
    }

    /// Whether a help file can be laid out with these settings.
    pub fn is_usable(&self) -> (b: bool)
        ensures
            b == self.usable(),
    {
        1 <= self.indent_width && self.indent_width <= usize::MAX / 3
    }

    /// The choice of tags that these settings make.
    pub open spec fn renamed(&self) -> Rename {
        Rename {
            func: self.prefix_func,
            alias: self.prefix_alias,
            class: self.prefix_class,
            ty: self.prefix_type,
        }
    }

    /// The choice of tags that these settings make.
    pub fn rename(&self) -> (r: Rename)
        ensures
            r == self.renamed(),
    {
        Rename {
            func: self.prefix_func,
            alias: self.prefix_alias,
            class: self.prefix_class,
            ty: self.prefix_type,
        }
    }
}

/// The value of a decimal digit, or `None` for any other character.
pub open spec fn digit_of(c: char) -> Option<nat> {
    if '0' <= c && c <= '9' {
        Some((c as nat - '0' as nat) as nat)
    } else {
        None
    }
}

/// The number that a text of decimal digits spells, or `None` where the
/// text is empty or holds anything but digits.
pub open spec fn number_of(s: Seq<char>) -> Option<nat>
    decreases s.len(),
{
    if s.len() == 0 {
        None
    } else if s.len() == 1 {
        digit_of(s[0])
    } else {
        match (number_of(s.drop_last()), digit_of(s.last())) {
            (Some(n), Some(d)) => Some(n * 10 + d),
            _ => None,
        }
    }
}

/// The number that a text spells, with a plus sign before it or without,
/// where it is at most 255; else zero.
pub open spec fn small_number(s: Seq<char>) -> u8 {
    let digits = if s.len() > 0 && s[0] == '+' {
        s.drop_first()
    } else {
        s
    };
    match number_of(digits) {
        Some(n) => if n <= 255 {
            n as u8
        } else {
            0
        },
        None => 0,
    }
}

/// The position of the first colon of a text at or after `i`, or the
/// length of the text.
pub open spec fn colon_at(s: Seq<char>, i: int) -> int
    decreases s.len() - i,
{
    if 0 <= i < s.len() && s[i] != ':' {
        colon_at(s, i + 1)
    } else {
        i
    }
}

/// The number behind the first colon of a text, or zero where there is no
/// colon.
pub open spec fn amount_of(s: Seq<char>) -> u8 {
    let c = colon_at(s, 0);
    if c < s.len() {
        small_number(s.subrange(c + 1, s.len() as int))
    } else {
        0
    }
}

/// The layout that a text names: `default`, `compact` or `mini`, the last
/// two with `:` and an indentation behind them where one is wanted.
pub open spec fn layout_of(s: Seq<char>) -> Option<Layout> {
    let head = s.subrange(0, colon_at(s, 0));
    if s == "default"@ {
        Some(Layout::Default)
    } else if head == "compact"@ {
        Some(Layout::Compact(amount_of(s)))
    } else if head == "mini"@ {
        Some(Layout::Mini(amount_of(s)))
    } else {
        None
    }
}

/// The value of a decimal digit.
fn digit(c: char) -> (r: Option<u8>)
    ensures
        match r {
            Some(d) => digit_of(c) == Some(d as nat) && d <= 9,
            None => digit_of(c) is None,
        },
{
    match c {
        '0' => Some(0),
        '1' => Some(1),
        '2' => Some(2),
        '3' => Some(3),
        '4' => Some(4),
        '5' => Some(5),
        '6' => Some(6),
        '7' => Some(7),
        '8' => Some(8),
        '9' => Some(9),
        _ => None,
    }
}

/// A number spelled by digits only grows with more digits.
proof fn lemma_number_grows(s: Seq<char>, k: int)
    requires
        0 < k <= s.len(),
        number_of(s) is Some,
    ensures
        number_of(s.take(k)) is Some,
        number_of(s.take(k)).unwrap() <= number_of(s).unwrap(),
    decreases s.len(),
{
    if k < s.len() {
        assert(s.len() > 1);
        assert(s.drop_last().take(k) == s.take(k));
        lemma_number_grows(s.drop_last(), k);
    } else {
        assert(s.take(k) == s);
    }
}

/// Reads the number that the characters of `s` from `from` on spell.
fn read_small(s: &Vec<char>, from: usize) -> (r: u8)
    requires
        from <= s.len(),
    ensures
        r == small_number(s@.subrange(from as int, s.len() as int)),
{
    let ghost text = s@.subrange(from as int, s.len() as int);
    let start = if from < s.len() && s[from] == '+' {
        from + 1
    } else {
        from
    };
    let ghost digits = s@.subrange(start as int, s.len() as int);
    assert(digits == if text.len() > 0 && text[0] == '+' {
        text.drop_first()
    } else {
        text
    });
    let ghost goal = small_number(text);
    if start >= s.len() {
        return 0;
    }
    let mut value: u16 = 0;
    let mut i: usize = start;
    while i < s.len()
        invariant
            start <= i <= s.len(),
            start < s.len(),
            digits == s@.subrange(start as int, s.len() as int),
            goal == small_number(s@.subrange(from as int, s.len() as int)),
            goal == match number_of(digits) {
                Some(n) => if n <= 255 {
                    n as u8
                } else {
                    0u8
                },
                None => 0u8,
            },
            value <= 255,
            i > start ==> number_of(digits.take(i - start)) == Some(value as nat),
            i == start ==> value == 0,
        decreases s.len() - i,
    {
        let ghost k = i - start;
        proof {
            assert(digits.take(k + 1).drop_last() == digits.take(k));
            assert(digits.take(k + 1).last() == s@[i as int]);
        }
        match digit(s[i]) {
            Some(d) => {
                let next: u16 = value * 10 + d as u16;
                assert(number_of(digits.take(k + 1)) == Some(next as nat));
                if next > 255 {
                    proof {
                        // Whatever follows, the number is too large, or it is none.
                        if number_of(digits) is Some {
                            lemma_number_grows(digits, k + 1);
                        }
                    }
                    return 0;
                }
                value = next;
            },
            None => {
                proof {
                    // A text with anything but digits in it spells no number.
                    assert(number_of(digits.take(k + 1)) is None);
                    if number_of(digits) is Some {
                        lemma_number_grows(digits, k + 1);
                    }
                }
                return 0;
            },
        }
        i += 1;
    }
    assert(digits.take(digits.len() as int) == digits);
    value as u8
}

impl Layout {
    /// Reads the name of a layout.
    pub fn from_str(text: &str) -> (r: Result<Layout, ()>)
        ensures
            match r {
                Ok(l) => layout_of(text@) == Some(l),
                Err(_) => layout_of(text@) is None,
            },
    {
        let s = chars_of(text);
        let mut c: usize = 0;
        while c < s.len() && s[c] != ':'
            invariant
                c <= s.len(),
                colon_at(s@, 0) == colon_at(s@, c as int),
            decreases s.len() - c,
        {
            c += 1;
        }
        let amount = if c < s.len() {
            read_small(&s, c + 1)
        } else {
            0
        };
        assert(s@.subrange(0, s.len() as int) == s@);
        if spells(&s, 0, s.len(), "default") {
            Ok(Layout::Default)
        } else if spells(&s, 0, c, "compact") {
            Ok(Layout::Compact(amount))
        } else if spells(&s, 0, c, "mini") {
            Ok(Layout::Mini(amount))
        } else {
            Err(())
        }
    }
}

} // verus!
