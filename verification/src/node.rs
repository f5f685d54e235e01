//! The documentation tree: what the annotations of a source file say, node
//! by node.

use crate::text::views;
use crate::token::{
    opt_view, ops_view, Kind, Member, MemberView, Name, NameView, Op, OpView, Scope, Ty, TyView,
};
use vstd::prelude::*;

verus! {

/// The qualifier of a documented symbol. `left` is the name that the source
/// declares the symbol under, and decides whether the symbol is exported;
/// `right` is the name that the help tag shows in its place.
#[derive(Debug, PartialEq, Eq)]
pub struct Prefix {
    pub left: Option<String>,
    pub right: Option<String>,
}

/// What a [`Prefix`] holds, over plain sequences.
pub struct PrefixView {
    pub left: Option<Seq<char>>,
    pub right: Option<Seq<char>>,
}

impl View for Prefix {
    type V = PrefixView;

    open spec fn view(&self) -> PrefixView {
        PrefixView { left: opt_view(self.left), right: opt_view(self.right) }
    }
}

/// `---@mod <name> [desc]`
#[derive(Debug, PartialEq, Eq)]
pub struct Module {
    pub name: String,
    pub desc: Option<String>,
}

/// What a [`Module`] holds, over plain sequences.
pub struct ModuleView {
    pub name: Seq<char>,
    pub desc: Option<Seq<char>>,
}

impl View for Module {
    type V = ModuleView;

    open spec fn view(&self) -> ModuleView {
        ModuleView { name: self.name@, desc: opt_view(self.desc) }
    }
}

/// `---@divider <char>`
#[derive(Debug, PartialEq, Eq)]
pub struct Divider(pub char);

/// The lines between `---@brief [[` and `---@brief ]]`.
#[derive(Debug, PartialEq, Eq)]
pub struct Brief {
    pub desc: Vec<String>,
}

/// What a [`Brief`] holds, over plain sequences.
pub struct BriefView {
    pub desc: Seq<Seq<char>>,
}

impl View for Brief {
    type V = BriefView;

    open spec fn view(&self) -> BriefView {
        BriefView { desc: views(self.desc) }
    }
}

/// `---@tag <name>`
#[derive(Debug, PartialEq, Eq)]
pub struct Tag(pub String);

/// The names that the `---@see` lines of a node refer to.
#[derive(Debug, PartialEq, Eq)]
pub struct See {
    pub refs: Vec<String>,
}

/// What a [`See`] holds, over plain sequences.
pub struct SeeView {
    pub refs: Seq<Seq<char>>,
}

impl View for See {
    type V = SeeView;

    open spec fn view(&self) -> SeeView {
        SeeView { refs: views(self.refs) }
    }
}

/// The code of a usage example: one piece between backticks, or the lines
/// of a block.
#[derive(Debug, PartialEq, Eq)]
pub enum Code {
    InLine(String),
    MultiLine(Vec<String>),
}

/// What a [`Code`] holds, over plain sequences.
pub enum CodeView {
    InLine(Seq<char>),
    MultiLine(Seq<Seq<char>>),
}

impl View for Code {
    type V = CodeView;

    open spec fn view(&self) -> CodeView {
        match self {
            Code::InLine(c) => CodeView::InLine(c@),
            Code::MultiLine(ls) => CodeView::MultiLine(views(*ls)),
        }
    }
}

/// A usage example, with the language it is written in where one is named.
#[derive(Debug, PartialEq, Eq)]
pub struct Usage {
    pub lang: Option<String>,
    pub code: Code,
}

/// What a [`Usage`] holds, over plain sequences.
pub struct UsageView {
    pub lang: Option<Seq<char>>,
    pub code: CodeView,
}

impl View for Usage {
    type V = UsageView;

    open spec fn view(&self) -> UsageView {
        UsageView { lang: opt_view(self.lang), code: self.code@ }
    }
}

/// What an optional usage example holds.
pub open spec fn usage_view(u: Option<Usage>) -> Option<UsageView> {
    match u {
        Some(u) => Some(u@),
        None => None,
    }
}

/// A parameter of a function. The description holds the text behind the
/// tag, then the comment lines that follow the tag; an empty line is an
/// empty text.
#[derive(Debug, PartialEq, Eq)]
pub struct Param {
    pub name: Name,
    pub ty: Ty,
    pub desc: Vec<String>,
}

/// What a [`Param`] holds, over plain sequences.
pub struct ParamView {
    pub name: NameView,
    pub ty: TyView,
    pub desc: Seq<Seq<char>>,
}

impl View for Param {
    type V = ParamView;

    open spec fn view(&self) -> ParamView {
        ParamView { name: self.name@, ty: self.ty@, desc: views(self.desc) }
    }
}

/// A value that a function returns.
#[derive(Debug, PartialEq, Eq)]
pub struct Return {
    pub ty: Ty,
    pub name: Option<String>,
    pub desc: Vec<String>,
}

/// What a [`Return`] holds, over plain sequences.
pub struct ReturnView {
    pub ty: TyView,
    pub name: Option<Seq<char>>,
    pub desc: Seq<Seq<char>>,
}

impl View for Return {
    type V = ReturnView;

    open spec fn view(&self) -> ReturnView {
        ReturnView { ty: self.ty@, name: opt_view(self.name), desc: views(self.desc) }
    }
}

/// A documented function.
#[derive(Debug, PartialEq, Eq)]
pub struct Func {
    pub prefix: Prefix,
    pub kind: Kind,
    pub op: Vec<Op>,
    pub desc: Vec<String>,
    pub params: Vec<Param>,
    pub returns: Vec<Return>,
    pub see: See,
    pub usage: Option<Usage>,
}

/// What a [`Func`] holds, over plain sequences.
pub struct FuncView {
    pub prefix: PrefixView,
    pub kind: Kind,
    pub op: Seq<OpView>,
    pub desc: Seq<Seq<char>>,
    pub params: Seq<ParamView>,
    pub returns: Seq<ReturnView>,
    pub see: SeeView,
    pub usage: Option<UsageView>,
}

impl View for Func {
    type V = FuncView;

    open spec fn view(&self) -> FuncView {
        FuncView {
            prefix: self.prefix@,
            kind: self.kind,
            op: ops_view(self.op),
            desc: views(self.desc),
            params: views(self.params),
            returns: views(self.returns),
            see: self.see@,
            usage: usage_view(self.usage),
        }
    }
}

/// A field of a class. The description holds the text behind the tag, then
/// the comment lines above the tag.
#[derive(Debug, PartialEq, Eq)]
pub struct Field {
    pub scope: Scope,
    pub name: Name,
    pub ty: Ty,
    pub desc: Vec<String>,
}

/// What a [`Field`] holds, over plain sequences.
pub struct FieldView {
    pub scope: Scope,
    pub name: NameView,
    pub ty: TyView,
    pub desc: Seq<Seq<char>>,
}

impl View for Field {
    type V = FieldView;

    open spec fn view(&self) -> FieldView {
        FieldView { scope: self.scope, name: self.name@, ty: self.ty@, desc: views(self.desc) }
    }
}

/// A documented class. The description holds the text behind the tag, then
/// the comment lines above the tag.
#[derive(Debug, PartialEq, Eq)]
pub struct Class {
    pub name: String,
    pub parent: Option<String>,
    pub desc: Vec<String>,
    pub fields: Vec<Field>,
    pub see: See,
    pub prefix: Prefix,
}

/// What a [`Class`] holds, over plain sequences.
pub struct ClassView {
    pub name: Seq<char>,
    pub parent: Option<Seq<char>>,
    pub desc: Seq<Seq<char>>,
    pub fields: Seq<FieldView>,
    pub see: SeeView,
    pub prefix: PrefixView,
}

impl View for Class {
    type V = ClassView;

    open spec fn view(&self) -> ClassView {
        ClassView {
            name: self.name@,
            parent: opt_view(self.parent),
            desc: views(self.desc),
            fields: views(self.fields),
            see: self.see@,
            prefix: self.prefix@,
        }
    }
}

/// What an alias stands for: a type, or an enumeration of members, each
/// with its description where it has one.
#[derive(Debug, PartialEq, Eq)]
pub enum AliasKind {
    Type(Ty),
    Enum(Vec<(Member, Option<String>)>),
}

/// What a [`AliasKind`] holds, over plain sequences.
pub enum AliasKindView {
    Type(TyView),
    Enum(Seq<(MemberView, Option<Seq<char>>)>),
}

/// The members of an enumeration as plain values.
pub open spec fn variants_view(vs: Vec<(Member, Option<String>)>) -> Seq<
    (MemberView, Option<Seq<char>>),
> {
    Seq::new(vs.len() as nat, |i: int| (vs[i].0@, opt_view(vs[i].1)))
}

impl View for AliasKind {
    type V = AliasKindView;

    open spec fn view(&self) -> AliasKindView {
        match self {
            AliasKind::Type(t) => AliasKindView::Type(t@),
            AliasKind::Enum(vs) => AliasKindView::Enum(variants_view(*vs)),
        }
    }
}

/// A documented alias.
#[derive(Debug, PartialEq, Eq)]
pub struct Alias {
    pub name: String,
    pub desc: Vec<String>,
    pub kind: AliasKind,
    pub prefix: Prefix,
}

/// What a [`Alias`] holds, over plain sequences.
pub struct AliasView {
    pub name: Seq<char>,
    pub desc: Seq<Seq<char>>,
    pub kind: AliasKindView,
    pub prefix: PrefixView,
}

impl View for Alias {
    type V = AliasView;

    open spec fn view(&self) -> AliasView {
        AliasView {
            name: self.name@,
            desc: views(self.desc),
            kind: self.kind@,
            prefix: self.prefix@,
        }
    }
}

/// A documented value: the comment lines above the tag and the text behind
/// the tag, the symbol it is assigned to, and its type.
#[derive(Debug, PartialEq, Eq)]
pub struct Type {
    pub desc: (Vec<String>, Option<String>),
    pub prefix: Prefix,
    pub kind: Kind,
    pub op: Vec<Op>,
    pub ty: Ty,
    pub see: See,
    pub usage: Option<Usage>,
}

/// What a [`Type`] holds, over plain sequences.
pub struct TypeView {
    pub desc: (Seq<Seq<char>>, Option<Seq<char>>),
    pub prefix: PrefixView,
    pub kind: Kind,
    pub op: Seq<OpView>,
    pub ty: TyView,
    pub see: SeeView,
    pub usage: Option<UsageView>,
}

impl View for Type {
    type V = TypeView;

    open spec fn view(&self) -> TypeView {
        TypeView {
            desc: (views(self.desc.0), opt_view(self.desc.1)),
            prefix: self.prefix@,
            kind: self.kind,
            op: ops_view(self.op),
            ty: self.ty@,
            see: self.see@,
            usage: usage_view(self.usage),
        }
    }
}

/// One node of the documentation tree.
#[derive(Debug, PartialEq, Eq)]
pub enum Node {
    Module(Module),
    Divider(Divider),
    Brief(Brief),
    Tag(Tag),
    Func(Func),
    Class(Class),
    Alias(Alias),
    Type(Type),
    Export(String),
    Toc(String),
}

/// What a [`Node`] holds, over plain sequences.
pub enum NodeView {
    Module(ModuleView),
    Divider(char),
    Brief(BriefView),
    Tag(Seq<char>),
    Func(FuncView),
    Class(ClassView),
    Alias(AliasView),
    Type(TypeView),
    Export(Seq<char>),
    Toc(Seq<char>),
}

impl View for Node {
    type V = NodeView;

    open spec fn view(&self) -> NodeView {
        match self {
            Node::Module(m) => NodeView::Module(m@),
            Node::Divider(d) => NodeView::Divider(d.0),
            Node::Brief(b) => NodeView::Brief(b@),
            Node::Tag(t) => NodeView::Tag(t.0@),
            Node::Func(f) => NodeView::Func(f@),
            Node::Class(c) => NodeView::Class(c@),
            Node::Alias(a) => NodeView::Alias(a@),
            Node::Type(t) => NodeView::Type(t@),
            Node::Export(e) => NodeView::Export(e@),
            Node::Toc(t) => NodeView::Toc(t@),
        }
    }
}

} // verus!
