//! The vocabulary of the lexer: type expressions, names, and the tokens that
//! annotation lines and Lua declarations are turned into.

use crate::text::{chars_of, string_from};
use vstd::prelude::*;

verus! {

/// One alternative of an enumeration: a quoted literal or a backticked
/// identifier.
#[derive(Debug, PartialEq, Eq, Hash)]
pub enum Member {
    Literal(String),
    Ident(String),
}

/// What a [`Member`] holds, as plain sequences of characters.
pub enum MemberView {
    Literal(Seq<char>),
    Ident(Seq<char>),
}

impl View for Member {
    type V = MemberView;

    open spec fn view(&self) -> MemberView {
        match self {
            Member::Literal(s) => MemberView::Literal(s@),
            Member::Ident(s) => MemberView::Ident(s@),
        }
    }
}

/// A parameter or field name, required or optional (`name?`).
#[derive(Debug, PartialEq, Eq, Hash)]
pub enum Name {
    Req(String),
    Opt(String),
}

/// What a [`Name`] holds, as plain sequences of characters.
pub enum NameView {
    Req(Seq<char>),
    Opt(Seq<char>),
}

impl View for Name {
    type V = NameView;

    open spec fn view(&self) -> NameView {
        match self {
            Name::Req(s) => NameView::Req(s@),
            Name::Opt(s) => NameView::Opt(s@),
        }
    }
}

/// A type expression.
#[derive(Debug, PartialEq, Eq, Hash)]
pub enum Ty {
    Nil,
    Any,
    Unknown,
    Boolean,
    String,
    Number,
    Integer,
    Function,
    Thread,
    Userdata,
    Lightuserdata,
    Ref(String),
    Member(Member),
    Array(Box<Ty>),
    Table(Option<(Box<Ty>, Box<Ty>)>),
    Fun(Vec<(Name, Ty)>, Option<Vec<Ty>>),
    Dict(Vec<(Name, Ty)>),
    Union(Box<Ty>, Box<Ty>),
}

/// What a [`Ty`] holds, as a tree over plain sequences.
pub enum TyView {
    Nil,
    Any,
    Unknown,
    Boolean,
    String,
    Number,
    Integer,
    Function,
    Thread,
    Userdata,
    Lightuserdata,
    Ref(Seq<char>),
    Member(MemberView),
    Array(Box<TyView>),
    Table(Option<(Box<TyView>, Box<TyView>)>),
    Fun(Seq<(NameView, TyView)>, Option<Seq<TyView>>),
    Dict(Seq<(NameView, TyView)>),
    Union(Box<TyView>, Box<TyView>),
}

/// The tree that a type expression stands for.
pub open spec fn ty_view(t: Ty) -> TyView
    decreases t,
{
    match t {
        Ty::Nil => TyView::Nil,
        Ty::Any => TyView::Any,
        Ty::Unknown => TyView::Unknown,
        Ty::Boolean => TyView::Boolean,
        Ty::String => TyView::String,
        Ty::Number => TyView::Number,
        Ty::Integer => TyView::Integer,
        Ty::Function => TyView::Function,
        Ty::Thread => TyView::Thread,
        Ty::Userdata => TyView::Userdata,
        Ty::Lightuserdata => TyView::Lightuserdata,
        Ty::Ref(s) => TyView::Ref(s@),
        Ty::Member(m) => TyView::Member(m@),
        Ty::Array(e) => TyView::Array(Box::new(ty_view(*e))),
        Ty::Table(None) => TyView::Table(None),
        Ty::Table(Some((k, v))) => TyView::Table(
            Some((Box::new(ty_view(*k)), Box::new(ty_view(*v)))),
        ),
        Ty::Fun(args, ret) => TyView::Fun(
            fields_view(args),
            match ret {
                Some(r) => Some(tys_view(r)),
                None => None,
            },
        ),
        Ty::Dict(args) => TyView::Dict(fields_view(args)),
        Ty::Union(a, b) => TyView::Union(Box::new(ty_view(*a)), Box::new(ty_view(*b))),
    }
}

/// The trees of a list of named types.
pub open spec fn fields_view(args: Vec<(Name, Ty)>) -> Seq<(NameView, TyView)>
    decreases args,
{
    Seq::new(
        args.len() as nat,
        |i: int|
            if 0 <= i < args.len() {
                (args[i].0@, ty_view(args[i].1))
            } else {
                (NameView::Req(Seq::empty()), TyView::Nil)
            },
    )
}

/// The trees of a list of types.
pub open spec fn tys_view(tys: Vec<Ty>) -> Seq<TyView>
    decreases tys,
{
    Seq::new(
        tys.len() as nat,
        |i: int|
            if 0 <= i < tys.len() {
                ty_view(tys[i])
            } else {
                TyView::Nil
            },
    )
}

impl View for Ty {
    type V = TyView;

    open spec fn view(&self) -> TyView {
        ty_view(*self)
    }
}

/// How a declared symbol continues after its first name: `.name` or `:name`.
#[derive(Debug, PartialEq, Eq, Hash)]
pub enum Op {
    Dot(String),
    Colon(String),
}

/// What an [`Op`] holds, as plain sequences of characters.
pub enum OpView {
    Dot(Seq<char>),
    Colon(Seq<char>),
}

impl View for Op {
    type V = OpView;

    open spec fn view(&self) -> OpView {
        match self {
            Op::Dot(s) => OpView::Dot(s@),
            Op::Colon(s) => OpView::Colon(s@),
        }
    }
}

/// The path segments of a declared symbol, as plain sequences.
pub open spec fn ops_view(ops: Vec<Op>) -> Seq<OpView> {
    Seq::new(ops.len() as nat, |i: int| ops[i]@)
}

/// The visibility of a class field.
#[derive(Debug, Clone, Copy, PartialEq, Eq, Hash, Structural)]
pub enum Scope {
    Public,
    Private,
    Protected,
    Package,
}

/// How a symbol was declared: as a dotted member, as a method after a colon,
/// or as a local.
#[derive(Debug, Clone, Copy, PartialEq, Eq, Hash, Structural)]
pub enum Kind {
    Dot,
    Colon,
    Local,
}

impl Kind {
    /// The separator that a member of this kind is written with.
    pub fn as_char(&self) -> (c: char)
        requires
            *self != Kind::Local,
        ensures
            c == self.separator(),
    {
        match self {
            Kind::Dot => '.',
            _ => ':',
        }
    }

    /// The separator of a member kind: a dot or a colon.
    pub open spec fn separator(&self) -> char {
        if *self == Kind::Dot {
            '.'
        } else {
            ':'
        }
    }
}

/// The index of the first character at or after `i` that is not a double
/// quote, or the length of `s`.
pub open spec fn after_quotes(s: Seq<char>, i: int) -> int
    decreases s.len() - i,
{
    if 0 <= i < s.len() && s[i] == '"' {
        after_quotes(s, i + 1)
    } else {
        i
    }
}

/// The index at or before `n` behind the last character before `n` that is
/// not a double quote, but not below `low`.
pub open spec fn before_quotes(s: Seq<char>, low: int, n: int) -> int
    decreases n,
{
    if 0 <= low < n <= s.len() && s[n - 1] == '"' {
        before_quotes(s, low, n - 1)
    } else {
        n
    }
}

/// A text without the double quotes that it starts and ends with.
pub open spec fn unquoted(s: Seq<char>) -> Seq<char> {
    let from = after_quotes(s, 0);
    if from >= s.len() {
        Seq::empty()
    } else {
        s.subrange(from, before_quotes(s, from, s.len() as int))
    }
}

/// How an enumeration member is written in a help file: a literal in
/// double quotes, an identifier as it is.
pub open spec fn member_text(m: MemberView) -> Seq<char> {
    match m {
        MemberView::Literal(s) => seq!['"'] + unquoted(s) + seq!['"'],
        MemberView::Ident(s) => s,
    }
}

/// How a name is written: an optional one ends in a question mark.
pub open spec fn name_text(n: NameView) -> Seq<char> {
    match n {
        NameView::Req(s) => s,
        NameView::Opt(s) => s.push('?'),
    }
}

/// How a path segment is written: its separator, then its name.
pub open spec fn op_text(o: OpView) -> Seq<char> {
    match o {
        OpView::Dot(s) => seq!['.'] + s,
        OpView::Colon(s) => seq![':'] + s,
    }
}

/// How the path segments of a symbol are written, one after the other.
pub open spec fn ops_text(ops: Seq<OpView>) -> Seq<char>
    decreases ops.len(),
{
    if ops.len() == 0 {
        Seq::empty()
    } else {
        ops_text(ops.drop_last()) + op_text(ops.last())
    }
}

/// Whether the text of a type ends where the type ends: it does not end in
/// the list of what a function returns, which would take in a comma and
/// what follows it.
pub open spec fn closed(t: TyView) -> bool
    decreases t,
{
    match t {
        TyView::Fun(_, Some(_)) => false,
        TyView::Union(_, b) => closed(*b),
        _ => true,
    }
}

/// Whether a type can stand before `|` or `[]` as it is written: it is
/// closed and no union.
pub open spec fn tight(t: TyView) -> bool {
    !(t is Union) && closed(t)
}

/// How a type expression is written in a help file.
///
/// A type stands in round brackets where what follows it would else become
/// a part of it: a union, or a type that is not closed, before `[]` and on
/// the left of `|`; a type that is not closed before a comma.
pub open spec fn ty_text(t: TyView) -> Seq<char>
    decreases t, 0nat,
{
    match t {
        TyView::Nil => "nil"@,
        TyView::Any => "any"@,
        TyView::Unknown => "unknown"@,
        TyView::Boolean => "boolean"@,
        TyView::String => "string"@,
        TyView::Number => "number"@,
        TyView::Integer => "integer"@,
        TyView::Function => "function"@,
        TyView::Thread => "thread"@,
        TyView::Userdata => "userdata"@,
        TyView::Lightuserdata => "lightuserdata"@,
        TyView::Ref(s) => s,
        TyView::Member(m) => member_text(m),
        TyView::Array(e) => grouped(*e, !tight(*e)) + "[]"@,
        TyView::Table(None) => "table"@,
        TyView::Table(Some((k, v))) => "table<"@ + grouped(*k, !closed(*k)) + ","@ + ty_text(*v)
            + ">"@,
        TyView::Fun(args, ret) => "fun("@ + fields_in(args, false) + ")"@ + match ret {
            Some(r) => ":"@ + tys_in(r, false),
            None => Seq::empty(),
        },
        TyView::Dict(args) => "{"@ + fields_in(args, false) + "}"@,
        TyView::Union(a, b) => grouped(*a, !tight(*a)) + "|"@ + ty_text(*b),
    }
}

/// A type as it is written, in round brackets where `group` is set.
pub open spec fn grouped(t: TyView, group: bool) -> Seq<char>
    decreases t, 1nat,
{
    if group {
        seq!['('] + ty_text(t) + seq![')']
    } else {
        ty_text(t)
    }
}

/// How one named type is written: `name:type`, the type in round brackets
/// where a comma follows and the type is not closed.
pub open spec fn field_in(f: (NameView, TyView), followed: bool) -> Seq<char>
    decreases f.1, 2nat,
{
    name_text(f.0) + ":"@ + grouped(f.1, followed && !closed(f.1))
}

/// How a list of named types is written, with commas between, where a
/// comma follows the list if `followed` is set.
pub open spec fn fields_in(fs: Seq<(NameView, TyView)>, followed: bool) -> Seq<char>
    decreases fs, 0nat,
{
    if fs.len() == 0 {
        Seq::empty()
    } else if fs.len() == 1 {
        field_in(fs[0], followed)
    } else {
        fields_in(fs.drop_last(), true) + ","@ + field_in(fs.last(), followed)
    }
}

/// How a list of types is written, with commas between, where a comma
/// follows the list if `followed` is set.
pub open spec fn tys_in(ts: Seq<TyView>, followed: bool) -> Seq<char>
    decreases ts, 0nat,
{
    if ts.len() == 0 {
        Seq::empty()
    } else if ts.len() == 1 {
        grouped(ts[0], followed && !closed(ts[0]))
    } else {
        tys_in(ts.drop_last(), true) + ","@ + grouped(ts.last(), followed && !closed(ts.last()))
    }
}

/// How a list of named types is written: `name:type`, with commas between.
pub open spec fn fields_text(fs: Seq<(NameView, TyView)>) -> Seq<char> {
    fields_in(fs, false)
}

/// How a list of types is written, with commas between.
pub open spec fn tys_text(ts: Seq<TyView>) -> Seq<char> {
    tys_in(ts, false)
}

impl Member {
    /// A copy of this member.
    pub fn copy(&self) -> (r: Member)
        ensures
            r@ == self@,
    {
        match self {
            Member::Literal(s) => Member::Literal(s.clone()),
            Member::Ident(s) => Member::Ident(s.clone()),
        }
    }

    /// Appends the member as a help file shows it.
    pub fn write(&self, out: &mut String)
        ensures
            final(out)@ == old(out)@ + member_text(self@),
    {
        match self {
            Member::Literal(s) => {
                let v = chars_of(s.as_str());
                let mut from: usize = 0;
                while from < v.len() && v[from] == '"'
                    invariant
                        from <= v.len(),
                        after_quotes(v@, 0) == after_quotes(v@, from as int),
                    decreases v.len() - from,
                {
                    from += 1;
                }
                let mut to: usize = v.len();
                while from < to && v[to - 1] == '"'
                    invariant
                        from <= to <= v.len(),
                        before_quotes(v@, from as int, v.len() as int) == before_quotes(
                            v@,
                            from as int,
                            to as int,
                        ),
                    decreases to,
                {
                    to -= 1;
                }
                out.push('"');
                let inner = string_from(&v, from, to);
                out.append(inner.as_str());
                out.push('"');
                proof {
                    assert(inner@ == unquoted(s@)) by {
                        if from >= v.len() {
                            assert(inner@ =~= Seq::empty());
                        }
                    }
                    assert(out@ == old(out)@ + (seq!['"'] + unquoted(s@) + seq!['"']));
                }
            },
            Member::Ident(s) => {
                out.append(s.as_str());
            },
        }
    }

    /// The member as a help file shows it.
    pub fn to_string(&self) -> (r: String)
        ensures
            r@ == member_text(self@),
    {
        let mut r = String::new();
        self.write(&mut r);
        r
    }
}

impl Name {
    /// A copy of this name.
    pub fn copy(&self) -> (r: Name)
        ensures
            r@ == self@,
    {
        match self {
            Name::Req(s) => Name::Req(s.clone()),
            Name::Opt(s) => Name::Opt(s.clone()),
        }
    }

    /// Appends the name as it is written.
    pub fn write(&self, out: &mut String)
        ensures
            final(out)@ == old(out)@ + name_text(self@),
    {
        match self {
            Name::Req(s) => {
                out.append(s.as_str());
            },
            Name::Opt(s) => {
                out.append(s.as_str());
                out.push('?');
                assert(out@ == old(out)@ + s@.push('?'));
            },
        }
    }

    /// The name as it is written.
    pub fn to_string(&self) -> (r: String)
        ensures
            r@ == name_text(self@),
    {
        let mut r = String::new();
        self.write(&mut r);
        r
    }
}

impl Op {
    /// A copy of this segment.
    pub fn copy(&self) -> (r: Op)
        ensures
            r@ == self@,
    {
        match self {
            Op::Dot(s) => Op::Dot(s.clone()),
            Op::Colon(s) => Op::Colon(s.clone()),
        }
    }

    /// Appends the segment as it is written.
    pub fn write(&self, out: &mut String)
        ensures
            final(out)@ == old(out)@ + op_text(self@),
    {
        match self {
            Op::Dot(s) => {
                out.push('.');
                out.append(s.as_str());
                assert(out@ == old(out)@ + (seq!['.'] + s@));
            },
            Op::Colon(s) => {
                out.push(':');
                out.append(s.as_str());
                assert(out@ == old(out)@ + (seq![':'] + s@));
            },
        }
    }

    /// The segment as it is written.
    pub fn to_string(&self) -> (r: String)
        ensures
            r@ == op_text(self@),
    {
        let mut r = String::new();
        self.write(&mut r);
        r
    }
}

/// Appends the path segments of a symbol, one after the other.
pub fn write_ops(ops: &Vec<Op>, out: &mut String)
    ensures
        final(out)@ == old(out)@ + ops_text(ops_view(*ops)),
{
    let mut i: usize = 0;
    while i < ops.len()
        invariant
            i <= ops.len(),
            out@ == old(out)@ + ops_text(ops_view(*ops).take(i as int)),
        decreases ops.len() - i,
    {
        ops[i].write(out);
        proof {
            let all = ops_view(*ops);
            assert(all.take(i + 1).drop_last() == all.take(i as int));
            assert(all.take(i + 1).last() == ops[i as int]@);
        }
        i += 1;
    }
    assert(ops_view(*ops).take(i as int) == ops_view(*ops));
}

/// A copy of the path segments of a symbol.
pub fn copy_ops(ops: &Vec<Op>) -> (r: Vec<Op>)
    ensures
        ops_view(r) == ops_view(*ops),
{
    let mut r: Vec<Op> = Vec::new();
    let mut i: usize = 0;
    while i < ops.len()
        invariant
            i <= ops.len(),
            r.len() == i,
            forall|j: int| 0 <= j < i ==> r[j]@ == ops[j]@,
        decreases ops.len() - i,
    {
        r.push(ops[i].copy());
        i += 1;
    }
    assert(ops_view(r) =~= ops_view(*ops));
    r
}

impl Ty {
    /// A copy of this type expression.
    pub fn copy(&self) -> (r: Ty)
        ensures
            r@ == self@,
        decreases self,
    {
        match self {
            Ty::Nil => Ty::Nil,
            Ty::Any => Ty::Any,
            Ty::Unknown => Ty::Unknown,
            Ty::Boolean => Ty::Boolean,
            Ty::String => Ty::String,
            Ty::Number => Ty::Number,
            Ty::Integer => Ty::Integer,
            Ty::Function => Ty::Function,
            Ty::Thread => Ty::Thread,
            Ty::Userdata => Ty::Userdata,
            Ty::Lightuserdata => Ty::Lightuserdata,
            Ty::Ref(s) => Ty::Ref(s.clone()),
            Ty::Member(m) => Ty::Member(m.copy()),
            Ty::Array(e) => Ty::Array(Box::new(e.copy())),
            Ty::Table(None) => Ty::Table(None),
            Ty::Table(Some((k, v))) => Ty::Table(Some((Box::new(k.copy()), Box::new(v.copy())))),
            Ty::Fun(args, ret) => {
                let a = copy_fields(args);
                let r = match ret {
                    Some(r) => Some(copy_tys(r)),
                    None => None,
                };
                Ty::Fun(a, r)
            },
            Ty::Dict(args) => Ty::Dict(copy_fields(args)),
            Ty::Union(a, b) => Ty::Union(Box::new(a.copy()), Box::new(b.copy())),
        }
    }

    /// Appends the type expression as a help file shows it.
    pub fn write(&self, out: &mut String)
        ensures
            final(out)@ == old(out)@ + ty_text(self@),
        decreases self, 0nat,
    {
        match self {
            Ty::Nil => out.append("nil"),
            Ty::Any => out.append("any"),
            Ty::Unknown => out.append("unknown"),
            Ty::Boolean => out.append("boolean"),
            Ty::String => out.append("string"),
            Ty::Number => out.append("number"),
            Ty::Integer => out.append("integer"),
            Ty::Function => out.append("function"),
            Ty::Thread => out.append("thread"),
            Ty::Userdata => out.append("userdata"),
            Ty::Lightuserdata => out.append("lightuserdata"),
            Ty::Ref(s) => out.append(s.as_str()),
            Ty::Member(m) => m.write(out),
            Ty::Array(e) => {
                write_grouped(e, !is_tight(e), out);
                out.append("[]");
                assert(out@ == old(out)@ + (grouped(e@, !tight(e@)) + "[]"@));
            },
            Ty::Table(None) => out.append("table"),
            Ty::Table(Some((k, v))) => {
                out.append("table<");
                write_grouped(k, !is_closed(k), out);
                out.append(",");
                v.write(out);
                out.append(">");
                assert(out@ == old(out)@ + ("table<"@ + grouped(k@, !closed(k@)) + ","@ + ty_text(
                    v@,
                ) + ">"@));
            },
            Ty::Fun(args, ret) => {
                out.append("fun(");
                write_fields(args, out);
                out.append(")");
                let ghost head = "fun("@ + fields_in(fields_view(*args), false) + ")"@;
                assert(out@ == old(out)@ + head);
                match ret {
                    Some(r) => {
                        out.append(":");
                        write_tys(r, out);
                        assert(out@ == old(out)@ + (head + (":"@ + tys_in(tys_view(*r), false))));
                    },
                    None => {
                        assert(out@ == old(out)@ + (head + Seq::<char>::empty()));
                    },
                }
            },
            Ty::Dict(args) => {
                out.append("{");
                write_fields(args, out);
                out.append("}");
                assert(out@ == old(out)@ + ("{"@ + fields_in(fields_view(*args), false) + "}"@));
            },
            Ty::Union(a, b) => {
                write_grouped(a, !is_tight(a), out);
                out.append("|");
                b.write(out);
                assert(out@ == old(out)@ + (grouped(a@, !tight(a@)) + "|"@ + ty_text(b@)));
            },
        }
    }

    /// The type expression as a help file shows it.
    pub fn to_string(&self) -> (r: String)
        ensures
            r@ == ty_text(self@),
    {
        let mut r = String::new();
        self.write(&mut r);
        r
    }
}

/// A copy of a list of named types.
pub fn copy_fields(args: &Vec<(Name, Ty)>) -> (r: Vec<(Name, Ty)>)
    ensures
        fields_view(r) == fields_view(*args),
    decreases args,
{
    let mut r: Vec<(Name, Ty)> = Vec::new();
    let mut i: usize = 0;
    while i < args.len()
        invariant
            i <= args.len(),
            r.len() == i,
            forall|j: int| 0 <= j < i ==> r[j].0@ == args[j].0@ && r[j].1@ == args[j].1@,
        decreases args.len() - i,
    {
        let n = args[i].0.copy();
        let t = args[i].1.copy();
        r.push((n, t));
        i += 1;
    }
    assert(fields_view(r) =~= fields_view(*args));
    r
}

/// A copy of a list of types.
pub fn copy_tys(tys: &Vec<Ty>) -> (r: Vec<Ty>)
    ensures
        tys_view(r) == tys_view(*tys),
    decreases tys,
{
    let mut r: Vec<Ty> = Vec::new();
    let mut i: usize = 0;
    while i < tys.len()
        invariant
            i <= tys.len(),
            r.len() == i,
            forall|j: int| 0 <= j < i ==> r[j]@ == tys[j]@,
        decreases tys.len() - i,
    {
        let t = tys[i].copy();
        r.push(t);
        i += 1;
    }
    assert(tys_view(r) =~= tys_view(*tys));
    r
}

/// Whether the text of a type ends where the type ends.
pub fn is_closed(t: &Ty) -> (b: bool)
    ensures
        b == closed(t@),
    decreases t,
{
    match t {
        Ty::Fun(_, Some(_)) => false,
        Ty::Union(_, b) => is_closed(b),
        _ => true,
    }
}

/// Whether a type can stand before `|` or `[]` as it is written.
pub fn is_tight(t: &Ty) -> (b: bool)
    ensures
        b == tight(t@),
{
    match t {
        Ty::Union(_, _) => false,
        _ => is_closed(t),
    }
}

/// Appends a type as it is written, in round brackets where `group` is
/// set.
pub fn write_grouped(t: &Ty, group: bool, out: &mut String)
    ensures
        final(out)@ == old(out)@ + grouped(t@, group),
    decreases t, 1nat,
{
    if group {
        out.push('(');
        t.write(out);
        out.push(')');
        assert(out@ =~= old(out)@ + (seq!['('] + ty_text(t@) + seq![')']));
    } else {
        t.write(out);
    }
}

/// Appends a list of named types as a help file shows it.
pub fn write_fields(args: &Vec<(Name, Ty)>, out: &mut String)
    ensures
        final(out)@ == old(out)@ + fields_text(fields_view(*args)),
    decreases args,
{
    let mut i: usize = 0;
    assert(fields_in(fields_view(*args).take(0), 0 < args.len()) =~= Seq::<char>::empty());
    while i < args.len()
        invariant
            i <= args.len(),
            out@ == old(out)@ + fields_in(fields_view(*args).take(i as int), i < args.len()),
        decreases args.len() - i,
    {
        let ghost before = out@;
        let followed = args.len() - i > 1;
        if i > 0 {
            out.append(",");
        }
        args[i].0.write(out);
        out.append(":");
        write_grouped(&args[i].1, followed && !is_closed(&args[i].1), out);
        proof {
            let all = fields_view(*args);
            let f = (args[i as int].0@, args[i as int].1@);
            assert(all.take(i + 1).drop_last() == all.take(i as int));
            assert(all.take(i + 1).last() == f);
            if i > 0 {
                assert(out@ == before + ","@ + name_text(f.0) + ":"@ + grouped(
                    f.1,
                    followed && !closed(f.1),
                ));
                assert(out@ =~= before + ","@ + field_in(f, followed));
            } else {
                assert(all.take(1)[0] == all.take(1).last());
                assert(before =~= old(out)@);
                assert(out@ =~= before + field_in(f, followed));
            }
        }
        i += 1;
    }
    assert(fields_view(*args).take(i as int) == fields_view(*args));
}

/// Appends a list of types as a help file shows it.
pub fn write_tys(tys: &Vec<Ty>, out: &mut String)
    ensures
        final(out)@ == old(out)@ + tys_text(tys_view(*tys)),
    decreases tys,
{
    let mut i: usize = 0;
    assert(tys_in(tys_view(*tys).take(0), 0 < tys.len()) =~= Seq::<char>::empty());
    while i < tys.len()
        invariant
            i <= tys.len(),
            out@ == old(out)@ + tys_in(tys_view(*tys).take(i as int), i < tys.len()),
        decreases tys.len() - i,
    {
        let ghost before = out@;
        let followed = tys.len() - i > 1;
        if i > 0 {
            out.append(",");
        }
        write_grouped(&tys[i], followed && !is_closed(&tys[i]), out);
        proof {
            let all = tys_view(*tys);
            let t = tys[i as int]@;
            assert(all.take(i + 1).drop_last() == all.take(i as int));
            assert(all.take(i + 1).last() == t);
            if i > 0 {
                assert(out@ == before + ","@ + grouped(t, followed && !closed(t)));
            } else {
                assert(all.take(1)[0] == all.take(1).last());
                assert(before =~= old(out)@);
            }
        }
        i += 1;
    }
    assert(tys_view(*tys).take(i as int) == tys_view(*tys));
}

/// What an optional text holds, as a plain sequence of characters.
pub open spec fn opt_view(o: Option<String>) -> Option<Seq<char>> {
    match o {
        Some(s) => Some(s@),
        None => None,
    }
}

/// A stretch of the source, from the character at `start` up to, and
/// without, the character at `end`. Both count characters, not bytes.
#[derive(Debug, Clone, Copy, PartialEq, Eq, Hash, Structural)]
pub struct Span {
    pub start: usize,
    pub end: usize,
}

/// An annotation whose tag is known and whose body does not fit the tag.
/// The span is that of the annotation's line, from its three dashes on.
#[derive(Debug, Clone, Copy, PartialEq, Eq, Hash, Structural)]
pub struct LexError {
    pub span: Span,
}

/// One annotation or one Lua declaration.
#[derive(Debug, PartialEq, Eq, Hash)]
pub enum Token {
    /// `---@toc <name>`
    Toc(String),
    /// `---@mod <name> [desc]`
    Module(String, Option<String>),
    /// `---@divider <char>`
    Divider(char),
    /// `function a.b:c(`, `a.b = function`, `local function f(`
    Func { prefix: Option<String>, name: String, op: Vec<Op>, kind: Kind },
    /// `a.b = <expr>`, `local x =`
    Expr { prefix: Option<String>, name: String, op: Vec<Op>, kind: Kind },
    /// `---@export <name>`, or `return <name>` at the end of the source
    Export(String),
    /// `---@brief [[`
    BriefStart,
    /// `---@brief ]]`
    BriefEnd,
    /// `---@param <name[?]> <type> [desc]`
    Param(Name, Ty, Option<String>),
    /// `---@return <type> [<name> [desc] | #<desc>]`
    Return(Ty, Option<String>, Option<String>),
    /// `---@class [(exact)] <name>[: <parent>] [desc]`
    Class(String, Option<String>, Option<String>),
    /// `---@field [public|protected|private|package] <name[?]> <type> [desc]`
    Field(Scope, Name, Ty, Option<String>),
    /// `---@alias <name> [<type>]`
    Alias(String, Option<Ty>),
    /// `---| '<literal>' [# desc]`, or with a backticked identifier
    Variant(Member, Option<String>),
    /// `---@type <type> [desc]`
    Type(Ty, Option<String>),
    /// `---@tag <name>`
    Tag(String),
    /// `---@see <name>`
    See(String),
    /// ``---@usage [lang] `<code>` ``
    Usage(Option<String>, String),
    /// `---@usage [lang] [[`
    UsageStart(Option<String>),
    /// `---@usage ]]`
    UsageEnd,
    /// `---<text>`
    Comment(String),
    /// What a visibility marker hides, and the marker itself.
    Skip,
}

/// What a [`Token`] holds, over plain sequences.
pub enum TokenView {
    Toc(Seq<char>),
    Module(Seq<char>, Option<Seq<char>>),
    Divider(char),
    Func { prefix: Option<Seq<char>>, name: Seq<char>, op: Seq<OpView>, kind: Kind },
    Expr { prefix: Option<Seq<char>>, name: Seq<char>, op: Seq<OpView>, kind: Kind },
    Export(Seq<char>),
    BriefStart,
    BriefEnd,
    Param(NameView, TyView, Option<Seq<char>>),
    Return(TyView, Option<Seq<char>>, Option<Seq<char>>),
    Class(Seq<char>, Option<Seq<char>>, Option<Seq<char>>),
    Field(Scope, NameView, TyView, Option<Seq<char>>),
    Alias(Seq<char>, Option<TyView>),
    Variant(MemberView, Option<Seq<char>>),
    Type(TyView, Option<Seq<char>>),
    Tag(Seq<char>),
    See(Seq<char>),
    Usage(Option<Seq<char>>, Seq<char>),
    UsageStart(Option<Seq<char>>),
    UsageEnd,
    Comment(Seq<char>),
    Skip,
}

impl View for Token {
    type V = TokenView;

    open spec fn view(&self) -> TokenView {
        match self {
            Token::Toc(n) => TokenView::Toc(n@),
            Token::Module(n, d) => TokenView::Module(n@, opt_view(*d)),
            Token::Divider(c) => TokenView::Divider(*c),
            Token::Func { prefix, name, op, kind } => TokenView::Func {
                prefix: opt_view(*prefix),
                name: name@,
                op: ops_view(*op),
                kind: *kind,
            },
            Token::Expr { prefix, name, op, kind } => TokenView::Expr {
                prefix: opt_view(*prefix),
                name: name@,
                op: ops_view(*op),
                kind: *kind,
            },
            Token::Export(n) => TokenView::Export(n@),
            Token::BriefStart => TokenView::BriefStart,
            Token::BriefEnd => TokenView::BriefEnd,
            Token::Param(n, t, d) => TokenView::Param(n@, t@, opt_view(*d)),
            Token::Return(t, n, d) => TokenView::Return(t@, opt_view(*n), opt_view(*d)),
            Token::Class(n, p, d) => TokenView::Class(n@, opt_view(*p), opt_view(*d)),
            Token::Field(s, n, t, d) => TokenView::Field(*s, n@, t@, opt_view(*d)),
            Token::Alias(n, t) => TokenView::Alias(
                n@,
                match t {
                    Some(t) => Some(t@),
                    None => None,
                },
            ),
            Token::Variant(m, d) => TokenView::Variant(m@, opt_view(*d)),
            Token::Type(t, d) => TokenView::Type(t@, opt_view(*d)),
            Token::Tag(n) => TokenView::Tag(n@),
            Token::See(n) => TokenView::See(n@),
            Token::Usage(l, c) => TokenView::Usage(opt_view(*l), c@),
            Token::UsageStart(l) => TokenView::UsageStart(opt_view(*l)),
            Token::UsageEnd => TokenView::UsageEnd,
            Token::Comment(t) => TokenView::Comment(t@),
            Token::Skip => TokenView::Skip,
        }
    }
}

/// The tokens of a stream as plain values, each with its span.
pub open spec fn stream_view(ts: Vec<(Token, Span)>) -> Seq<(TokenView, Span)> {
    Seq::new(ts.len() as nat, |i: int| (ts[i].0@, ts[i].1))
}

} // verus!
