//! The help file: how each node of the documentation tree is written as
//! text of a vim help file, 80 columns wide.
//!
//! Parameters, fields, returned values, variants and documented values are
//! shown in tables. A cell of a table shows at most
//! [`CELL_MAX`](crate::table::CELL_MAX) characters of its text: what is
//! longer is cut, see [`crate::table`].
//!
//! The text comes in two styles. The modern style draws dividers 78
//! columns wide, fences a usage example with `>lua` and `<` at the start of
//! the line, and shows the type of a returned value in round brackets. The
//! classic style draws dividers 80 columns wide, indents the fence of a
//! usage example, and shows the type of a returned value in braces.

use crate::help::{FromEmmy, Nodes};
use crate::node::{
    Alias, AliasKind, AliasKindView, AliasView, Brief, BriefView, Class, ClassView, Code,
    CodeView, Field, FieldView, Func, FuncView, Module, ModuleView, Node, NodeView, Param,
    ParamView, PrefixView, Return, ReturnView, Type, TypeView, Usage, UsageView, variants_view,
};
use crate::settings::{Layout, Settings};
use crate::table::{table_text, HelpTable};
use crate::text::{
    byte_len, bytes_in, indent, indented, join, joined, minus, push_joined, push_repeated,
    push_right, repeated, right_aligned, spaces, views,
};
use crate::token::{
    member_text, name_text, ops_text, ops_view, opt_view, ty_text, write_ops, Member,
    MemberView, Name, NameView, Op, OpView, Scope, Ty, TyView,
};
use vstd::prelude::*;

verus! {

/// The width of a help file, in columns.
pub const TW: usize = 80;

/// The style of a help file.
#[derive(Debug, Clone, Copy, PartialEq, Eq, Structural)]
pub enum Style {
    Modern,
    Classic,
}

/// An optional text, or the empty text.
pub open spec fn text_or_empty(o: Option<Seq<char>>) -> Seq<char> {
    match o {
        Some(t) => t,
        None => Seq::empty(),
    }
}

/// A help tag: the name between two stars.
pub open spec fn starred(tag: Seq<char>) -> Seq<char> {
    seq!['*'] + tag + seq!['*']
}

/// A name in braces.
pub open spec fn braced(name: Seq<char>) -> Seq<char> {
    seq!['{'] + name + seq!['}']
}

/// A text in round brackets.
pub open spec fn bracketed(text: Seq<char>) -> Seq<char> {
    seq!['('] + text + seq![')']
}

/// A paragraph: the text indented by one step, and a line feed.
pub open spec fn description(text: Seq<char>, indent: nat) -> Seq<char> {
    indented(text, spaces(indent)) + seq!['\n']
}

/// The description of a node where it has one, else nothing.
pub open spec fn opt_description(lines: Seq<Seq<char>>, indent: nat) -> Seq<char> {
    if lines.len() > 0 {
        description(join(lines, seq!['\n']), indent)
    } else {
        Seq::empty()
    }
}

/// Whether a name and its tag, between its two stars, fit on one line of
/// the help file. The name counts by its bytes.
pub open spec fn fits_line(name: Seq<char>, tag: Seq<char>) -> bool {
    byte_len(name) + tag.len() + 2 <= TW
}

/// The first line of a node: its name at the left and its tag at the right
/// edge, where both fit on one line; else the tag at the right edge of a
/// line of its own, and the name on the line below.
pub open spec fn header(name: Seq<char>, tag: Seq<char>) -> Seq<char> {
    if fits_line(name, tag) {
        name + right_aligned(starred(tag), (TW - byte_len(name)) as nat, ' ') + seq!['\n']
    } else {
        right_aligned(starred(tag), TW as nat, ' ') + seq!['\n'] + name + seq!['\n']
    }
}

/// The width of a divider.
pub open spec fn divider_width(style: Style) -> nat {
    if style == Style::Classic {
        TW as nat
    } else {
        (TW - 2) as nat
    }
}

/// A divider: a line of one character.
pub open spec fn divider_text(c: char, style: Style) -> Seq<char> {
    repeated(c, divider_width(style)) + seq!['\n']
}

/// The head of a module: a divider of `=`, then the description at the left
/// and the tag at the right edge.
pub open spec fn module_text(m: ModuleView, style: Style) -> Seq<char> {
    let desc = text_or_empty(m.desc);
    divider_text('=', style) + desc + right_aligned(
        starred(m.name),
        minus(TW as nat, byte_len(desc)),
        ' ',
    ) + seq!['\n']
}

/// A brief: its lines as they are.
pub open spec fn brief_text(b: BriefView) -> Seq<char> {
    join(b.desc, seq!['\n']) + seq!['\n']
}

/// A tag of its own, at the right edge.
pub open spec fn tag_text(t: Seq<char>) -> Seq<char> {
    right_aligned(starred(t), TW as nat, ' ')
}

/// The names of the parameters, each in braces.
pub open spec fn arg_names(ps: Seq<ParamView>) -> Seq<Seq<char>> {
    Seq::new(ps.len(), |i: int| braced(name_text(ps[i].name)))
}

/// The symbol with the qualifier that the source declares.
pub open spec fn declared(prefix: PrefixView, op: Seq<OpView>) -> Seq<char> {
    text_or_empty(prefix.left) + ops_text(op)
}

/// The symbol with the qualifier that the tag shows.
pub open spec fn shown(prefix: PrefixView, op: Seq<OpView>) -> Seq<char> {
    text_or_empty(prefix.right) + ops_text(op)
}

/// A function as it is called: the symbol and the parameters' names.
pub open spec fn func_name(f: FuncView) -> Seq<char> {
    declared(f.prefix, f.op) + seq!['('] + join(arg_names(f.params), ", "@) + seq![')']
}

/// The name cell of a parameter or field: where optional types are
/// expanded, an optional name loses its question mark.
pub open spec fn cell_name(name: NameView, expand: bool) -> Seq<char> {
    match name {
        NameView::Opt(n) => if expand {
            braced(n)
        } else {
            braced(name_text(name))
        },
        _ => braced(name_text(name)),
    }
}

/// The type cell of a parameter or field: where optional types are
/// expanded, the type of an optional name starts with `nil|`.
pub open spec fn cell_ty(name: NameView, ty: TyView, expand: bool) -> Seq<char> {
    if expand && name is Opt {
        bracketed("nil|"@ + ty_text(ty))
    } else {
        bracketed(ty_text(ty))
    }
}

/// What joins the lines of a description in the compact and mini layouts:
/// a line feed and `k` spaces.
pub open spec fn hanging(k: u8) -> Seq<char> {
    seq!['\n'] + spaces(k as nat)
}

/// The row of a parameter or field.
pub open spec fn entry_row(name: NameView, ty: TyView, desc: Seq<Seq<char>>, s: Settings) -> Seq<
    Seq<char>,
> {
    let n = cell_name(name, s.expand_opt);
    let t = cell_ty(name, ty, s.expand_opt);
    match s.layout {
        Layout::Default => seq![n, t, join(desc, seq!['\n'])],
        Layout::Compact(k) => seq![n, t + seq![' '] + join(desc, hanging(k))],
        Layout::Mini(k) => seq![n + seq![' '] + t + seq![' '] + join(desc, hanging(k))],
    }
}

/// The rows of the parameters.
pub open spec fn param_rows(ps: Seq<ParamView>, s: Settings) -> Seq<Seq<Seq<char>>> {
    Seq::new(ps.len(), |i: int| entry_row(ps[i].name, ps[i].ty, ps[i].desc, s))
}

/// The rows of the fields: the public ones, in their order.
pub open spec fn field_rows(fs: Seq<FieldView>, s: Settings) -> Seq<Seq<Seq<char>>>
    decreases fs.len(),
{
    if fs.len() == 0 {
        Seq::empty()
    } else {
        let f = fs.last();
        field_rows(fs.drop_last(), s) + if f.scope == Scope::Public {
            seq![entry_row(f.name, f.ty, f.desc, s)]
        } else {
            Seq::empty()
        }
    }
}

/// The type cell of a returned value.
pub open spec fn return_cell(r: ReturnView, style: Style) -> Seq<char> {
    if style == Style::Classic {
        braced(ty_text(r.ty))
    } else {
        bracketed(ty_text(r.ty))
    }
}

/// What is said of a returned value: its description, or its name where it
/// has no description.
pub open spec fn return_note(r: ReturnView, sep: Seq<char>) -> Seq<char> {
    if r.desc.len() == 0 {
        text_or_empty(r.name)
    } else {
        join(r.desc, sep)
    }
}

/// The row of a returned value.
pub open spec fn return_row(r: ReturnView, s: Settings, style: Style) -> Seq<Seq<char>> {
    match s.layout {
        Layout::Mini(k) => seq![return_cell(r, style) + seq![' '] + return_note(r, hanging(k))],
        _ => seq![return_cell(r, style), return_note(r, seq!['\n'])],
    }
}

/// The rows of the returned values.
pub open spec fn return_rows(rs: Seq<ReturnView>, s: Settings, style: Style) -> Seq<
    Seq<Seq<char>>,
> {
    Seq::new(rs.len(), |i: int| return_row(rs[i], s, style))
}

/// The lines of the references: each between bars, indented by two steps.
pub open spec fn see_lines(refs: Seq<Seq<char>>, indent: nat) -> Seq<char>
    decreases refs.len(),
{
    if refs.len() == 0 {
        Seq::empty()
    } else {
        see_lines(refs.drop_last(), indent) + spaces(indent * 2) + seq!['|'] + refs.last()
            + "|\n"@
    }
}

/// The references of a node.
pub open spec fn see_text(refs: Seq<Seq<char>>, indent: nat) -> Seq<char> {
    description("See: ~"@, indent) + see_lines(refs, indent) + seq!['\n']
}

/// The references of a node where it has any, else nothing.
pub open spec fn opt_see_text(refs: Seq<Seq<char>>, indent: nat) -> Seq<char> {
    if refs.len() > 0 {
        see_text(refs, indent)
    } else {
        Seq::empty()
    }
}

/// The code of a usage example as one text.
pub open spec fn code_text(c: CodeView) -> Seq<char> {
    match c {
        CodeView::InLine(x) => x,
        CodeView::MultiLine(ls) => join(ls, seq!['\n']),
    }
}

/// The language of a usage example: `lua` where none is named.
pub open spec fn lang_text(lang: Option<Seq<char>>) -> Seq<char> {
    match lang {
        Some(l) => l,
        None => "lua"@,
    }
}

/// A usage example.
pub open spec fn usage_text(u: UsageView, indent: nat, style: Style) -> Seq<char> {
    if style == Style::Classic {
        description("Usage: ~"@, indent) + right_aligned(seq!['>'], indent * 2 + 1, ' ') + seq![
            '\n',
        ] + indented(code_text(u.code), spaces(indent * 3)) + seq!['\n'] + right_aligned(
            seq!['<'],
            indent * 2 + 1,
            ' ',
        ) + "\n\n"@
    } else {
        description("Usage: ~"@, indent) + seq!['>'] + lang_text(u.lang) + seq!['\n']
            + indented(code_text(u.code), spaces(indent * 2)) + "\n<\n\n"@
    }
}

/// The usage example of a node where it has one, else nothing.
pub open spec fn opt_usage_text(u: Option<UsageView>, indent: nat, style: Style) -> Seq<char> {
    match u {
        Some(u) => usage_text(u, indent, style),
        None => Seq::empty(),
    }
}

/// A titled table: the title as a paragraph, the table, and an empty line.
/// Nothing where `shown` is not set.
pub open spec fn section(title: Seq<char>, rows: Seq<Seq<Seq<char>>>, indent: nat, shown: bool) -> Seq<
    char,
> {
    if shown {
        description(title, indent) + table_text(rows, indent) + seq!['\n']
    } else {
        Seq::empty()
    }
}

/// A function.
pub open spec fn func_text(f: FuncView, s: Settings, style: Style) -> Seq<char> {
    let indent = s.indent_width as nat;
    header(func_name(f), shown(f.prefix, f.op)) + opt_description(f.desc, indent) + seq!['\n']
        + section("Parameters: ~"@, param_rows(f.params, s), indent, f.params.len() > 0)
        + section("Returns: ~"@, return_rows(f.returns, s, style), indent, f.returns.len() > 0)
        + opt_see_text(f.see.refs, indent) + opt_usage_text(f.usage, indent, style)
}

/// The name of a class, with its parent behind a colon where it has one.
pub open spec fn class_title(c: ClassView) -> Seq<char> {
    match c.parent {
        Some(p) => c.name + " : "@ + p,
        None => c.name,
    }
}

/// The tag of a class or alias: its name, behind the tag qualifier and a
/// dot where there is a qualifier.
pub open spec fn qualified(prefix: PrefixView, name: Seq<char>) -> Seq<char> {
    match prefix.right {
        Some(r) => r + seq!['.'] + name,
        None => name,
    }
}

/// A class.
pub open spec fn class_text(c: ClassView, s: Settings) -> Seq<char> {
    let indent = s.indent_width as nat;
    header(class_title(c), qualified(c.prefix, c.name)) + opt_description(c.desc, indent) + seq![
        '\n',
    ] + section("Fields: ~"@, field_rows(c.fields, s), indent, c.fields.len() > 0) + opt_see_text(
        c.see.refs,
        indent,
    )
}

/// The rows of the members of an enumeration.
pub open spec fn variant_rows(vs: Seq<(MemberView, Option<Seq<char>>)>) -> Seq<Seq<Seq<char>>> {
    Seq::new(vs.len(), |i: int| seq![bracketed(member_text(vs[i].0)), text_or_empty(vs[i].1)])
}

/// What an alias stands for.
pub open spec fn alias_body(k: AliasKindView, indent: nat) -> Seq<char> {
    match k {
        AliasKindView::Type(t) => description("Type: ~"@, indent) + spaces(indent * 2) + ty_text(
            t,
        ) + seq!['\n'],
        AliasKindView::Enum(vs) => description("Variants: ~"@, indent) + table_text(
            variant_rows(vs),
            indent,
        ),
    }
}

/// An alias.
pub open spec fn alias_text(a: AliasView, s: Settings) -> Seq<char> {
    let indent = s.indent_width as nat;
    header(a.name, qualified(a.prefix, a.name)) + opt_description(a.desc, indent) + seq!['\n']
        + alias_body(a.kind, indent) + seq!['\n']
}

/// A documented value.
pub open spec fn type_text(t: TypeView, s: Settings, style: Style) -> Seq<char> {
    let indent = s.indent_width as nat;
    header(declared(t.prefix, t.op), shown(t.prefix, t.op)) + opt_description(t.desc.0, indent)
        + seq!['\n'] + section(
        "Type: ~"@,
        seq![seq![bracketed(ty_text(t.ty)), text_or_empty(t.desc.1)]],
        indent,
        true,
    ) + opt_see_text(t.see.refs, indent) + opt_usage_text(t.usage, indent, style)
}

/// The line of a module in a table of contents: the description, then the
/// module's name between bars at the right edge, with dots between.
pub open spec fn toc_line(m: ModuleView) -> Seq<char> {
    let desc = text_or_empty(m.desc);
    desc + seq![' '] + right_aligned(
        " |"@ + m.name + seq!['|'],
        minus((TW - 1) as nat, byte_len(desc)),
        '\u{b7}',
    ) + seq!['\n']
}

/// The lines of a table of contents: one for each module among the nodes.
pub open spec fn toc_lines(ns: Seq<NodeView>) -> Seq<char>
    decreases ns.len(),
{
    if ns.len() == 0 {
        Seq::empty()
    } else {
        toc_lines(ns.drop_last()) + match ns.last() {
            NodeView::Module(m) => toc_line(m),
            _ => Seq::empty(),
        }
    }
}

/// A table of contents, for the modules among the nodes `all`.
pub open spec fn toc_text(name: Seq<char>, all: Seq<NodeView>, style: Style) -> Seq<char> {
    module_text(ModuleView { name, desc: Some("Table of Contents"@) }, style) + seq!['\n']
        + toc_lines(all)
}

/// Whether a node is shown with a table.
pub open spec fn draws_table(n: NodeView) -> bool {
    match n {
        NodeView::Func(f) => f.params.len() > 0 || f.returns.len() > 0,
        NodeView::Class(c) => c.fields.len() > 0,
        NodeView::Alias(a) => a.kind is Enum,
        NodeView::Type(_) => true,
        _ => false,
    }
}

/// Whether a node can be shown with the settings: its text can be
/// indented, and the indent width is at least one where the node is shown
/// with a table.
pub open spec fn can_show(n: NodeView, s: Settings) -> bool {
    s.fits() && (draws_table(n) ==> s.usable())
}

/// Whether every node of a document can be shown with the settings.
pub open spec fn can_show_all(ns: Seq<NodeView>, s: Settings) -> bool {
    s.fits() && forall|i: int| 0 <= i < ns.len() ==> can_show(#[trigger] ns[i], s)
}

/// One node of a document whose nodes are `all`.
pub open spec fn node_text(n: NodeView, all: Seq<NodeView>, s: Settings, style: Style) -> Seq<
    char,
> {
    match n {
        NodeView::Module(m) => module_text(m, style),
        NodeView::Divider(c) => divider_text(c, style),
        NodeView::Brief(b) => brief_text(b),
        NodeView::Tag(t) => tag_text(t),
        NodeView::Func(f) => func_text(f, s, style),
        NodeView::Class(c) => class_text(c, s),
        NodeView::Alias(a) => alias_text(a, s),
        NodeView::Type(t) => type_text(t, s, style),
        NodeView::Toc(t) => toc_text(t, all, style),
        NodeView::Export(_) => Seq::empty(),
    }
}

/// The nodes `ns` of a document whose nodes are `all`: each node but an
/// export, with a line feed behind it.
pub open spec fn nodes_text(ns: Seq<NodeView>, all: Seq<NodeView>, s: Settings, style: Style) -> Seq<
    char,
>
    decreases ns.len(),
{
    if ns.len() == 0 {
        Seq::empty()
    } else {
        nodes_text(ns.drop_last(), all, s, style) + match ns.last() {
            NodeView::Export(_) => Seq::empty(),
            n => node_text(n, all, s, style) + seq!['\n'],
        }
    }
}

/// The help file of a document.
pub open spec fn help_text(ns: Seq<NodeView>, s: Settings, style: Style) -> Seq<char> {
    nodes_text(ns, ns, s, style)
}

/// Writes a paragraph.
pub fn describe(text: &str, width: usize) -> (r: String)
    ensures
        r@ == description(text@, width as nat),
{
    let mut prefix = String::new();
    push_repeated(&mut prefix, ' ', width);
    let mut r = indent(text, prefix.as_str());
    r.push('\n');
    r
}

/// Writes the description of a node where it has one.
pub fn describe_lines(lines: &Vec<String>, width: usize) -> (r: String)
    ensures
        r@ == opt_description(views(*lines), width as nat),
{
    if lines.len() > 0 {
        let text = joined(lines, "\n");
        proof {
            reveal_strlit("\n");
            assert("\n"@ =~= seq!['\n']);
        }
        describe(text.as_str(), width)
    } else {
        String::new()
    }
}

/// Writes a help tag.
pub fn star(tag: &str) -> (r: String)
    ensures
        r@ == starred(tag@),
{
    let mut r = String::new();
    r.push('*');
    r.append(tag);
    r.push('*');
    assert(r@ =~= starred(tag@));
    r
}

/// Writes a name in braces.
pub fn brace(name: &str) -> (r: String)
    ensures
        r@ == braced(name@),
{
    let mut r = String::new();
    r.push('{');
    r.append(name);
    r.push('}');
    assert(r@ =~= braced(name@));
    r
}

/// Writes a text in round brackets.
pub fn bracket(text: &str) -> (r: String)
    ensures
        r@ == bracketed(text@),
{
    let mut r = String::new();
    r.push('(');
    r.append(text);
    r.push(')');
    assert(r@ =~= bracketed(text@));
    r
}

/// Writes the first line of a node.
pub fn head(name: &str, tag: &str) -> (r: String)
    ensures
        r@ == header(name@, tag@),
{
    let len = bytes_in(name);
    let tag_len = tag.unicode_len();
    let mark = star(tag);
    let mut r = String::new();
    if len <= TW - 2 && tag_len <= TW - 2 - len {
        r.append(name);
        push_right(&mut r, mark.as_str(), TW - len, ' ');
        r.push('\n');
        assert(r@ =~= header(name@, tag@));
    } else {
        push_right(&mut r, mark.as_str(), TW, ' ');
        r.push('\n');
        r.append(name);
        r.push('\n');
        assert(r@ =~= header(name@, tag@));
    }
    r
}

/// Writes a divider.
pub fn write_divider(c: char, style: Style) -> (r: String)
    ensures
        r@ == divider_text(c, style),
{
    let mut r = String::new();
    let width = match style {
        Style::Classic => TW,
        Style::Modern => TW - 2,
    };
    push_repeated(&mut r, c, width);
    r.push('\n');
    assert(r@ =~= divider_text(c, style));
    r
}

/// An optional text, or the empty text.
fn or_empty(o: &Option<String>) -> (r: &str)
    ensures
        r@ == text_or_empty(opt_view(*o)),
{
    match o {
        Some(t) => t.as_str(),
        None => {
            proof {
                reveal_strlit("");
                assert(""@ =~= Seq::<char>::empty());
            }
            ""
        },
    }
}

/// Writes the head of a module.
pub fn write_module(name: &str, desc: &str, style: Style) -> (r: String)
    ensures
        r@ == module_text(ModuleView { name: name@, desc: Some(desc@) }, style),
{
    let mut r = write_divider('=', style);
    let len = bytes_in(desc);
    let width = if len >= TW {
        0
    } else {
        TW - len
    };
    r.append(desc);
    let mark = star(name);
    push_right(&mut r, mark.as_str(), width, ' ');
    r.push('\n');
    assert(r@ =~= module_text(ModuleView { name: name@, desc: Some(desc@) }, style));
    r
}

/// Writes a brief.
pub fn write_brief(b: &Brief) -> (r: String)
    ensures
        r@ == brief_text(b@),
{
    let mut r = joined(&b.desc, "\n");
    proof {
        reveal_strlit("\n");
        assert("\n"@ =~= seq!['\n']);
    }
    r.push('\n');
    r
}

/// Writes a tag of its own.
pub fn write_tag(t: &str) -> (r: String)
    ensures
        r@ == tag_text(t@),
{
    let mark = star(t);
    let mut r = String::new();
    push_right(&mut r, mark.as_str(), TW, ' ');
    assert(r@ =~= tag_text(t@));
    r
}

/// What joins the lines of a description in the compact and mini layouts.
fn hang(k: u8) -> (r: String)
    ensures
        r@ == hanging(k),
{
    let mut r = String::new();
    r.push('\n');
    push_repeated(&mut r, ' ', k as usize);
    assert(r@ =~= hanging(k));
    r
}

/// Writes the row of a parameter or field.
pub fn write_entry(name: &Name, ty: &Ty, desc: &Vec<String>, s: &Settings) -> (r: Vec<String>)
    ensures
        views(r) == entry_row(name@, ty@, views(*desc), *s),
{
    let plain = name.to_string();
    let n = match name {
        Name::Opt(inner) => if s.expand_opt {
            brace(inner.as_str())
        } else {
            brace(plain.as_str())
        },
        _ => brace(plain.as_str()),
    };
    let optional = match name {
        Name::Opt(_) => true,
        _ => false,
    };
    let t = if s.expand_opt && optional {
        let mut inner = String::from_str("nil|");
        ty.write(&mut inner);
        bracket(inner.as_str())
    } else {
        bracket(ty.to_string().as_str())
    };
    let mut row: Vec<String> = Vec::new();
    match s.layout {
        Layout::Default => {
            proof {
                reveal_strlit("\n");
                assert("\n"@ =~= seq!['\n']);
            }
            let d = joined(desc, "\n");
            row.push(n);
            row.push(t);
            row.push(d);
            assert(views(row) =~= entry_row(name@, ty@, views(*desc), *s));
        },
        Layout::Compact(k) => {
            let sep = hang(k);
            let mut cell = t;
            cell.push(' ');
            push_joined(&mut cell, desc, sep.as_str());
            row.push(n);
            row.push(cell);
            assert(views(row) =~= entry_row(name@, ty@, views(*desc), *s)) by {
                assert(views(row)[1] =~= cell_ty(name@, ty@, s.expand_opt) + seq![' '] + join(
                    views(*desc),
                    hanging(k),
                ));
            }
        },
        Layout::Mini(k) => {
            let sep = hang(k);
            let mut cell = n;
            cell.push(' ');
            cell.append(t.as_str());
            cell.push(' ');
            push_joined(&mut cell, desc, sep.as_str());
            row.push(cell);
            assert(views(row) =~= entry_row(name@, ty@, views(*desc), *s)) by {
                assert(views(row)[0] =~= cell_name(name@, s.expand_opt) + seq![' '] + cell_ty(
                    name@,
                    ty@,
                    s.expand_opt,
                ) + seq![' '] + join(views(*desc), hanging(k)));
            }
        },
    }
    row
}

/// Writes the table of the parameters.
pub fn write_params(ps: &Vec<Param>, s: &Settings) -> (r: String)
    requires
        s.usable(),
    ensures
        r@ == table_text(param_rows(views(*ps), *s), s.indent_width as nat),
{
    let mut table = HelpTable::new(s.indent_width);
    let ghost rows = param_rows(views(*ps), *s);
    let mut i: usize = 0;
    while i < ps.len()
        invariant
            i <= ps.len(),
            table.wf(),
            table.indent_width() == s.indent_width,
            rows == param_rows(views(*ps), *s),
            table.rows() == rows.take(i as int),
        decreases ps.len() - i,
    {
        let row = write_entry(&ps[i].name, &ps[i].ty, &ps[i].desc, s);
        table.add_row(row);
        assert(rows.take(i + 1) =~= rows.take(i as int).push(rows[i as int]));
        i += 1;
    }
    assert(rows.take(i as int) =~= rows);
    table.to_string()
}

/// Writes the table of the fields.
pub fn write_fields(fs: &Vec<Field>, s: &Settings) -> (r: String)
    requires
        s.usable(),
    ensures
        r@ == table_text(field_rows(views(*fs), *s), s.indent_width as nat),
{
    let mut table = HelpTable::new(s.indent_width);
    let ghost all = views(*fs);
    let mut i: usize = 0;
    assert(field_rows(all.take(0), *s) =~= Seq::<Seq<Seq<char>>>::empty());
    while i < fs.len()
        invariant
            i <= fs.len(),
            table.wf(),
            table.indent_width() == s.indent_width,
            all == views(*fs),
            table.rows() == field_rows(all.take(i as int), *s),
        decreases fs.len() - i,
    {
        proof {
            assert(all.take(i + 1).drop_last() =~= all.take(i as int));
            assert(all.take(i + 1).last() == fs[i as int]@);
        }
        let ghost before = table.rows();
        if matches!(fs[i].scope, Scope::Public) {
            let row = write_entry(&fs[i].name, &fs[i].ty, &fs[i].desc, s);
            table.add_row(row);
            assert(table.rows() =~= before + seq![
                entry_row(fs[i as int]@.name, fs[i as int]@.ty, fs[i as int]@.desc, *s),
            ]);
        } else {
            assert(before + Seq::<Seq<Seq<char>>>::empty() =~= before);
        }
        i += 1;
    }
    assert(all.take(i as int) =~= all);
    table.to_string()
}

/// Writes the row of a returned value.
pub fn write_return(r: &Return, s: &Settings, style: Style) -> (row: Vec<String>)
    ensures
        views(row) == return_row(r@, *s, style),
{
    let ty = r.ty.to_string();
    let cell = match style {
        Style::Classic => brace(ty.as_str()),
        Style::Modern => bracket(ty.as_str()),
    };
    let mut row: Vec<String> = Vec::new();
    match s.layout {
        Layout::Mini(k) => {
            let sep = hang(k);
            let mut text = cell;
            text.push(' ');
            if r.desc.len() == 0 {
                text.append(or_empty(&r.name));
            } else {
                push_joined(&mut text, &r.desc, sep.as_str());
            }
            row.push(text);
            assert(views(row) =~= return_row(r@, *s, style)) by {
                assert(views(row)[0] =~= return_cell(r@, style) + seq![' '] + return_note(
                    r@,
                    hanging(k),
                ));
            }
        },
        _ => {
            proof {
                reveal_strlit("\n");
                assert("\n"@ =~= seq!['\n']);
            }
            let note = if r.desc.len() == 0 {
                String::from_str(or_empty(&r.name))
            } else {
                joined(&r.desc, "\n")
            };
            row.push(cell);
            row.push(note);
            assert(views(row) =~= return_row(r@, *s, style));
        },
    }
    row
}

/// Writes the table of the returned values.
pub fn write_returns(rs: &Vec<Return>, s: &Settings, style: Style) -> (r: String)
    requires
        s.usable(),
    ensures
        r@ == table_text(return_rows(views(*rs), *s, style), s.indent_width as nat),
{
    let mut table = HelpTable::new(s.indent_width);
    let ghost rows = return_rows(views(*rs), *s, style);
    let mut i: usize = 0;
    while i < rs.len()
        invariant
            i <= rs.len(),
            table.wf(),
            table.indent_width() == s.indent_width,
            rows == return_rows(views(*rs), *s, style),
            table.rows() == rows.take(i as int),
        decreases rs.len() - i,
    {
        let row = write_return(&rs[i], s, style);
        table.add_row(row);
        assert(rows.take(i + 1) =~= rows.take(i as int).push(rows[i as int]));
        i += 1;
    }
    assert(rows.take(i as int) =~= rows);
    table.to_string()
}

/// Writes the references of a node.
pub fn write_see(refs: &Vec<String>, s: &Settings) -> (r: String)
    requires
        s.fits(),
    ensures
        r@ == see_text(views(*refs), s.indent_width as nat),
{
    let mut r = describe("See: ~", s.indent_width);
    let ghost head = r@;
    let ghost all = views(*refs);
    let ghost width = s.indent_width as nat;
    let mut i: usize = 0;
    assert(r@ =~= head + see_lines(all.take(0), width));
    while i < refs.len()
        invariant
            i <= refs.len(),
            s.fits(),
            all == views(*refs),
            width == s.indent_width as nat,
            r@ == head + see_lines(all.take(i as int), width),
        decreases refs.len() - i,
    {
        let ghost before = r@;
        push_repeated(&mut r, ' ', s.indent_width * 2);
        r.push('|');
        r.append(refs[i].as_str());
        r.append("|\n");
        proof {
            assert(all.take(i + 1).drop_last() =~= all.take(i as int));
            assert(all.take(i + 1).last() == refs[i as int]@);
            assert(r@ =~= before + (spaces(width * 2) + seq!['|'] + refs[i as int]@ + "|\n"@));
            assert(r@ =~= head + see_lines(all.take(i + 1), width));
        }
        i += 1;
    }
    assert(all.take(i as int) =~= all);
    r.push('\n');
    assert(r@ =~= see_text(views(*refs), s.indent_width as nat));
    r
}

/// The code of a usage example as one text.
pub fn write_code(c: &Code) -> (r: String)
    ensures
        r@ == code_text(c@),
{
    match c {
        Code::InLine(x) => x.clone(),
        Code::MultiLine(ls) => {
            proof {
                reveal_strlit("\n");
                assert("\n"@ =~= seq!['\n']);
            }
            joined(ls, "\n")
        },
    }
}

/// Writes a usage example.
pub fn write_usage(u: &Usage, s: &Settings, style: Style) -> (r: String)
    requires
        s.fits(),
    ensures
        r@ == usage_text(u@, s.indent_width as nat, style),
{
    let mut r = describe("Usage: ~", s.indent_width);
    let code = write_code(&u.code);
    let mut prefix = String::new();
    match style {
        Style::Classic => {
            push_right(&mut r, ">", s.indent_width * 2 + 1, ' ');
            r.push('\n');
            push_repeated(&mut prefix, ' ', s.indent_width * 3);
            let body = indent(code.as_str(), prefix.as_str());
            r.append(body.as_str());
            r.push('\n');
            push_right(&mut r, "<", s.indent_width * 2 + 1, ' ');
            r.append("\n\n");
            proof {
                reveal_strlit(">");
                reveal_strlit("<");
                assert(">"@ =~= seq!['>']);
                assert("<"@ =~= seq!['<']);
                assert(r@ =~= usage_text(u@, s.indent_width as nat, style));
            }
        },
        Style::Modern => {
            r.push('>');
            match &u.lang {
                Some(l) => r.append(l.as_str()),
                None => r.append("lua"),
            }
            r.push('\n');
            push_repeated(&mut prefix, ' ', s.indent_width * 2);
            let body = indent(code.as_str(), prefix.as_str());
            r.append(body.as_str());
            r.append("\n<\n\n");
            assert(r@ =~= usage_text(u@, s.indent_width as nat, style));
        },
    }
    r
}

/// Appends a titled table where `shown` is set.
fn push_section(out: &mut String, title: &str, table: &str, width: usize, shown: bool, Ghost(rows): Ghost<
    Seq<Seq<Seq<char>>>,
>)
    requires
        shown ==> table@ == table_text(rows, width as nat),
    ensures
        final(out)@ == old(out)@ + section(title@, rows, width as nat, shown),
{
    if shown {
        let d = describe(title, width);
        out.append(d.as_str());
        out.append(table);
        out.push('\n');
        assert(out@ =~= old(out)@ + section(title@, rows, width as nat, shown));
    } else {
        assert(out@ =~= old(out)@ + section(title@, rows, width as nat, shown));
    }
}

/// Appends the references and the usage example of a node, where it has
/// them.
fn push_tail(out: &mut String, refs: &Vec<String>, usage: &Option<Usage>, s: &Settings, style: Style)
    requires
        s.fits(),
    ensures
        final(out)@ == old(out)@ + opt_see_text(views(*refs), s.indent_width as nat)
            + opt_usage_text(crate::node::usage_view(*usage), s.indent_width as nat, style),
{
    if refs.len() > 0 {
        let t = write_see(refs, s);
        out.append(t.as_str());
    }
    let ghost mid = out@;
    assert(mid =~= old(out)@ + opt_see_text(views(*refs), s.indent_width as nat));
    match usage {
        Some(u) => {
            let t = write_usage(u, s, style);
            out.append(t.as_str());
        },
        None => {
            assert(out@ =~= mid + Seq::<char>::empty());
        },
    }
}

/// The names of the parameters, each in braces.
fn braced_names(ps: &Vec<Param>) -> (r: Vec<String>)
    ensures
        views(r) == arg_names(views(*ps)),
{
    let mut r: Vec<String> = Vec::new();
    let mut i: usize = 0;
    while i < ps.len()
        invariant
            i <= ps.len(),
            r.len() == i,
            forall|k: int| 0 <= k < i ==> r[k]@ == braced(name_text(ps[k]@.name)),
        decreases ps.len() - i,
    {
        let n = ps[i].name.to_string();
        r.push(brace(n.as_str()));
        i += 1;
    }
    assert(views(r) =~= arg_names(views(*ps)));
    r
}

/// A symbol behind a qualifier.
fn qualify(prefix: &Option<String>, op: &Vec<Op>) -> (r: String)
    ensures
        r@ == text_or_empty(opt_view(*prefix)) + ops_text(ops_view(*op)),
{
    let mut r = String::from_str(or_empty(prefix));
    write_ops(op, &mut r);
    r
}

/// Writes a function.
pub fn write_func(f: &Func, s: &Settings, style: Style) -> (r: String)
    requires
        can_show(NodeView::Func(f@), *s),
    ensures
        r@ == func_text(f@, *s, style),
{
    let ghost width = s.indent_width as nat;
    let mut name = qualify(&f.prefix.left, &f.op);
    name.push('(');
    let args = braced_names(&f.params);
    push_joined(&mut name, &args, ", ");
    name.push(')');
    assert(name@ =~= func_name(f@));
    let tag = qualify(&f.prefix.right, &f.op);
    let mut r = head(name.as_str(), tag.as_str());
    r.append(describe_lines(&f.desc, s.indent_width).as_str());
    r.push('\n');
    let ghost top = r@;
    assert(top =~= header(func_name(f@), shown(f@.prefix, f@.op)) + opt_description(
        f@.desc,
        width,
    ) + seq!['\n']);
    let has_params = f.params.len() > 0;
    let params = if has_params {
        write_params(&f.params, s)
    } else {
        String::new()
    };
    push_section(
        &mut r,
        "Parameters: ~",
        params.as_str(),
        s.indent_width,
        has_params,
        Ghost(param_rows(f@.params, *s)),
    );
    let has_returns = f.returns.len() > 0;
    let rets = if has_returns {
        write_returns(&f.returns, s, style)
    } else {
        String::new()
    };
    push_section(
        &mut r,
        "Returns: ~",
        rets.as_str(),
        s.indent_width,
        has_returns,
        Ghost(return_rows(f@.returns, *s, style)),
    );
    let ghost mid = r@;
    push_tail(&mut r, &f.see.refs, &f.usage, s, style);
    r
}

/// The tag of a class or alias.
fn qualified_name(right: &Option<String>, name: &str) -> (r: String)
    ensures
        r@ == qualified(PrefixView { left: None, right: opt_view(*right) }, name@),
{
    match right {
        Some(q) => {
            let mut r = q.clone();
            r.push('.');
            r.append(name);
            assert(r@ =~= q@ + seq!['.'] + name@);
            r
        },
        None => String::from_str(name),
    }
}

/// Writes a class.
pub fn write_class(c: &Class, s: &Settings) -> (r: String)
    requires
        can_show(NodeView::Class(c@), *s),
    ensures
        r@ == class_text(c@, *s),
{
    let ghost width = s.indent_width as nat;
    let mut title = c.name.clone();
    match &c.parent {
        Some(p) => {
            title.append(" : ");
            title.append(p.as_str());
        },
        None => {},
    }
    assert(title@ =~= class_title(c@));
    let tag = qualified_name(&c.prefix.right, c.name.as_str());
    let mut r = head(title.as_str(), tag.as_str());
    r.append(describe_lines(&c.desc, s.indent_width).as_str());
    r.push('\n');
    let has_fields = c.fields.len() > 0;
    let fields = if has_fields {
        write_fields(&c.fields, s)
    } else {
        String::new()
    };
    push_section(
        &mut r,
        "Fields: ~",
        fields.as_str(),
        s.indent_width,
        has_fields,
        Ghost(field_rows(c@.fields, *s)),
    );
    let ghost mid = r@;
    if c.see.refs.len() > 0 {
        let t = write_see(&c.see.refs, s);
        r.append(t.as_str());
    } else {
        assert(r@ =~= mid + Seq::<char>::empty());
    }
    r
}

/// Writes the table of the members of an enumeration.
pub fn write_variants(vs: &Vec<(Member, Option<String>)>, s: &Settings) -> (r: String)
    requires
        s.usable(),
    ensures
        r@ == table_text(variant_rows(variants_view(*vs)), s.indent_width as nat),
{
    let mut table = HelpTable::new(s.indent_width);
    let ghost rows = variant_rows(variants_view(*vs));
    let mut i: usize = 0;
    while i < vs.len()
        invariant
            i <= vs.len(),
            table.wf(),
            table.indent_width() == s.indent_width,
            rows == variant_rows(variants_view(*vs)),
            table.rows() == rows.take(i as int),
        decreases vs.len() - i,
    {
        let m = vs[i].0.to_string();
        let mut row: Vec<String> = Vec::new();
        row.push(bracket(m.as_str()));
        row.push(String::from_str(or_empty(&vs[i].1)));
        assert(views(row) =~= rows[i as int]);
        table.add_row(row);
        assert(rows.take(i + 1) =~= rows.take(i as int).push(rows[i as int]));
        i += 1;
    }
    assert(rows.take(i as int) =~= rows);
    table.to_string()
}

/// Writes an alias.
pub fn write_alias(a: &Alias, s: &Settings) -> (r: String)
    requires
        can_show(NodeView::Alias(a@), *s),
    ensures
        r@ == alias_text(a@, *s),
{
    let ghost width = s.indent_width as nat;
    let tag = qualified_name(&a.prefix.right, a.name.as_str());
    let mut r = head(a.name.as_str(), tag.as_str());
    r.append(describe_lines(&a.desc, s.indent_width).as_str());
    r.push('\n');
    let ghost top = r@;
    match &a.kind {
        AliasKind::Type(t) => {
            r.append(describe("Type: ~", s.indent_width).as_str());
            push_repeated(&mut r, ' ', s.indent_width * 2);
            t.write(&mut r);
            r.push('\n');
            assert(r@ =~= top + alias_body(a@.kind, width));
        },
        AliasKind::Enum(vs) => {
            r.append(describe("Variants: ~", s.indent_width).as_str());
            r.append(write_variants(vs, s).as_str());
            assert(r@ =~= top + alias_body(a@.kind, width));
        },
    }
    r.push('\n');
    assert(r@ =~= alias_text(a@, *s));
    r
}

/// Writes a documented value.
pub fn write_type(t: &Type, s: &Settings, style: Style) -> (r: String)
    requires
        s.usable(),
    ensures
        r@ == type_text(t@, *s, style),
{
    let name = qualify(&t.prefix.left, &t.op);
    let tag = qualify(&t.prefix.right, &t.op);
    let mut r = head(name.as_str(), tag.as_str());
    r.append(describe_lines(&t.desc.0, s.indent_width).as_str());
    r.push('\n');
    let mut table = HelpTable::new(s.indent_width);
    let mut row: Vec<String> = Vec::new();
    row.push(bracket(t.ty.to_string().as_str()));
    row.push(String::from_str(or_empty(&t.desc.1)));
    let ghost rv = seq![bracketed(ty_text(t@.ty)), text_or_empty(t@.desc.1)];
    assert(views(row) =~= rv);
    table.add_row(row);
    let ghost rows = seq![rv];
    assert(table.rows() =~= rows);
    let text = table.to_string();
    push_section(&mut r, "Type: ~", text.as_str(), s.indent_width, true, Ghost(rows));
    push_tail(&mut r, &t.see.refs, &t.usage, s, style);
    r
}

/// Writes the line of a module in a table of contents.
pub fn write_toc_line(m: &Module) -> (r: String)
    ensures
        r@ == toc_line(m@),
{
    let desc = or_empty(&m.desc);
    let len = bytes_in(desc);
    let width = if len >= TW - 1 {
        0
    } else {
        TW - 1 - len
    };
    let mut link = String::from_str(" |");
    link.append(m.name.as_str());
    link.push('|');
    let mut r = String::from_str(desc);
    r.push(' ');
    push_right(&mut r, link.as_str(), width, '\u{b7}');
    r.push('\n');
    assert(r@ =~= toc_line(m@));
    r
}

/// Writes a table of contents for the modules among the nodes `all`.
pub fn write_toc(name: &str, all: &Vec<Node>, style: Style) -> (r: String)
    ensures
        r@ == toc_text(name@, views(*all), style),
{
    let mut r = write_module(name, "Table of Contents", style);
    r.push('\n');
    let ghost top = r@;
    let ghost ns = views(*all);
    let mut i: usize = 0;
    assert(r@ =~= top + toc_lines(ns.take(0)));
    while i < all.len()
        invariant
            i <= all.len(),
            ns == views(*all),
            r@ == top + toc_lines(ns.take(i as int)),
        decreases all.len() - i,
    {
        proof {
            assert(ns.take(i + 1).drop_last() =~= ns.take(i as int));
            assert(ns.take(i + 1).last() == all[i as int]@);
        }
        let ghost before = r@;
        match &all[i] {
            Node::Module(m) => {
                r.append(write_toc_line(m).as_str());
                assert(r@ =~= top + toc_lines(ns.take(i + 1)));
            },
            _ => {
                assert(r@ =~= top + toc_lines(ns.take(i + 1)));
            },
        }
        i += 1;
    }
    assert(ns.take(i as int) =~= ns);
    r
}

/// Writes one node of a document whose nodes are `all`.
pub fn write_node(n: &Node, all: &Vec<Node>, s: &Settings, style: Style) -> (r: String)
    requires
        can_show(n@, *s),
    ensures
        r@ == node_text(n@, views(*all), *s, style),
{
    match n {
        Node::Module(m) => {
            let r = write_module(m.name.as_str(), or_empty(&m.desc), style);
            assert(module_text(m@, style) == module_text(
                ModuleView { name: m.name@, desc: Some(text_or_empty(opt_view(m.desc))) },
                style,
            ));
            r
        },
        Node::Divider(d) => write_divider(d.0, style),
        Node::Brief(b) => write_brief(b),
        Node::Tag(t) => write_tag(t.0.as_str()),
        Node::Func(f) => write_func(f, s, style),
        Node::Class(c) => write_class(c, s),
        Node::Alias(a) => write_alias(a, s),
        Node::Type(t) => write_type(t, s, style),
        Node::Toc(t) => write_toc(t.as_str(), all, style),
        Node::Export(_) => String::new(),
    }
}

/// Whether a node is shown with a table.
pub fn has_table(n: &Node) -> (b: bool)
    ensures
        b == draws_table(n@),
{
    match n {
        Node::Func(f) => f.params.len() > 0 || f.returns.len() > 0,
        Node::Class(c) => c.fields.len() > 0,
        Node::Alias(a) => match &a.kind {
            AliasKind::Enum(_) => true,
            _ => false,
        },
        Node::Type(_) => true,
        _ => false,
    }
}

/// Whether every node of a document can be shown with the settings.
pub fn can_render(nodes: &Vec<Node>, s: &Settings) -> (b: bool)
    ensures
        b == can_show_all(views(*nodes), *s),
{
    if !s.is_fit() {
        return false;
    }
    if s.indent_width >= 1 {
        return true;
    }
    let mut i: usize = 0;
    while i < nodes.len()
        invariant
            i <= nodes.len(),
            s.fits(),
            !s.usable(),
            forall|k: int| 0 <= k < i ==> !draws_table(#[trigger] views(*nodes)[k]),
        decreases nodes.len() - i,
    {
        if has_table(&nodes[i]) {
            assert(views(*nodes)[i as int] == nodes[i as int]@);
            return false;
        }
        i += 1;
    }
    true
}

/// Writes the help file of a document.
pub fn render(nodes: &Vec<Node>, s: &Settings, style: Style) -> (r: String)
    requires
        can_show_all(views(*nodes), *s),
    ensures
        r@ == help_text(views(*nodes), *s, style),
{
    let mut r = String::new();
    let ghost ns = views(*nodes);
    let mut i: usize = 0;
    assert(r@ =~= nodes_text(ns.take(0), ns, *s, style));
    while i < nodes.len()
        invariant
            i <= nodes.len(),
            can_show_all(views(*nodes), *s),
            ns == views(*nodes),
            r@ == nodes_text(ns.take(i as int), ns, *s, style),
        decreases nodes.len() - i,
    {
        proof {
            assert(ns.take(i + 1).drop_last() =~= ns.take(i as int));
            assert(ns.take(i + 1).last() == nodes[i as int]@);
        }
        let ghost before = r@;
        match &nodes[i] {
            Node::Export(_) => {
                assert(r@ =~= before + Seq::<char>::empty());
            },
            n => {
                r.append(write_node(n, nodes, s, style).as_str());
                r.push('\n');
                assert(r@ =~= before + (node_text(n@, ns, *s, style) + seq!['\n']));
            },
        }
        i += 1;
    }
    assert(ns.take(i as int) =~= ns);
    r
}

/// A help file in the modern style.
#[derive(Debug)]
pub struct VimDoc(pub String);

impl FromEmmy for VimDoc {
    type Settings = Settings;

    open spec fn accepts(nodes: Seq<NodeView>, s: &Settings) -> bool {
        can_show_all(nodes, *s)
    }

    open spec fn shows(&self, nodes: Seq<NodeView>, s: &Settings) -> bool {
        self.0@ == help_text(nodes, *s, Style::Modern)
    }

    fn from_emmy<N: Nodes>(t: &N, s: &Settings) -> (doc: VimDoc) {
        VimDoc(render(t.nodes(), s, Style::Modern))
    }
}

impl VimDoc {
    /// The text of the help file.
    pub fn to_string(&self) -> (r: String)
        ensures
            r@ == self.0@,
    {
        self.0.clone()
    }
}

} // verus!
