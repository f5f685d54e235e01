use lemmy_help::lexer::lexer;
use lemmy_help::{Kind, LexError, Member, Name, Op, Scope, Span, Token, Ty};

fn tokens(src: &str) -> Vec<Token> {
    lexer(src).unwrap().into_iter().map(|(t, _)| t).collect()
}

fn one(src: &str) -> Token {
    let mut all = tokens(src);
    assert_eq!(all.len(), 1, "{src}");
    all.remove(0)
}

fn s(text: &str) -> String {
    text.to_string()
}

fn some(text: &str) -> Option<String> {
    Some(text.to_string())
}

#[test]
fn optional_parameter() {
    assert_eq!(
        one("---@param x? string"),
        Token::Param(Name::Opt(s("x")), Ty::String, None)
    );
}

#[test]
fn param_tags() {
    assert_eq!(
        one("---@param x number The x"),
        Token::Param(Name::Req(s("x")), Ty::Number, some("The x"))
    );
    assert_eq!(
        one("---@param ... string[]"),
        Token::Param(Name::Req(s("...")), Ty::Array(Box::new(Ty::String)), None)
    );
    assert_eq!(
        one("---@param x number "),
        Token::Param(Name::Req(s("x")), Ty::Number, some(""))
    );
    assert_eq!(
        one("---@param\tx\tnumber\tThe x"),
        Token::Param(Name::Req(s("x")), Ty::Number, some("The x"))
    );
}

#[test]
fn returned_values() {
    assert_eq!(one("---@return number"), Token::Return(Ty::Number, None, None));
    assert_eq!(one("---@return number  \n"), Token::Return(Ty::Number, None, None));
    assert_eq!(
        one("---@return number total"),
        Token::Return(Ty::Number, some("total"), None)
    );
    assert_eq!(
        one("---@return number total The total"),
        Token::Return(Ty::Number, some("total"), some("The total"))
    );
    assert_eq!(
        one("---@return number #The total"),
        Token::Return(Ty::Number, None, some("The total"))
    );
}

#[test]
fn class_tags() {
    assert_eq!(one("---@class A"), Token::Class(s("A"), None, None));
    assert_eq!(one("---@class A:B"), Token::Class(s("A"), some("B"), None));
    assert_eq!(one("---@class A : B.c"), Token::Class(s("A"), some("B.c"), None));
    assert_eq!(one("---@class (exact) A"), Token::Class(s("A"), None, None));
    assert_eq!(one("---@class (exact) A: B"), Token::Class(s("A"), some("B"), None));
    assert_eq!(one("---@class A :"), Token::Class(s("A"), None, some(":")));
    assert_eq!(one("---@class A The a"), Token::Class(s("A"), None, some("The a")));
    assert_eq!(
        one("---@class A : B The a: more"),
        Token::Class(s("A"), some("B"), some("The a: more"))
    );
}

#[test]
fn field_tags() {
    assert_eq!(
        one("---@field x number"),
        Token::Field(Scope::Public, Name::Req(s("x")), Ty::Number, None)
    );
    assert_eq!(
        one("---@field public x? number The x"),
        Token::Field(Scope::Public, Name::Opt(s("x")), Ty::Number, some("The x"))
    );
    assert_eq!(
        one("---@field private x number"),
        Token::Field(Scope::Private, Name::Req(s("x")), Ty::Number, None)
    );
    assert_eq!(
        one("---@field protected x number"),
        Token::Field(Scope::Protected, Name::Req(s("x")), Ty::Number, None)
    );
    assert_eq!(
        one("---@field package x number"),
        Token::Field(Scope::Package, Name::Req(s("x")), Ty::Number, None)
    );
    assert_eq!(
        one("---@field publicity number"),
        Token::Field(Scope::Public, Name::Req(s("publicity")), Ty::Number, None)
    );
}

#[test]
fn aliases_and_variants() {
    assert_eq!(one("---@alias A"), Token::Alias(s("A"), None));
    assert_eq!(one("---@alias A  "), Token::Alias(s("A"), None));
    assert_eq!(
        one("---@alias A string|nil"),
        Token::Alias(
            s("A"),
            Some(Ty::Union(Box::new(Ty::String), Box::new(Ty::Nil)))
        )
    );
    assert_eq!(
        one("---| 'red'"),
        Token::Variant(Member::Literal(s("red")), None)
    );
    assert_eq!(
        one("---| 'blue' # the sky"),
        Token::Variant(Member::Literal(s("blue")), some("the sky"))
    );
    assert_eq!(
        one("---| `a.b` #x"),
        Token::Variant(Member::Ident(s("a.b")), some("x"))
    );
    assert_eq!(
        one("---| 'red' not a note"),
        Token::Variant(Member::Literal(s("red")), None)
    );
}

#[test]
fn a_bar_without_a_member_is_a_comment() {
    assert_eq!(one("---| a | b |"), Token::Comment(s("| a | b |")));
    assert_eq!(one("---|'red'"), Token::Comment(s("|'red'")));
}

#[test]
fn other_tags() {
    assert_eq!(one("---@mod a.b"), Token::Module(s("a.b"), None));
    assert_eq!(one("---@mod a.b The module"), Token::Module(s("a.b"), some("The module")));
    assert_eq!(one("---@toc a-b.c"), Token::Toc(s("a-b.c")));
    assert_eq!(one("---@tag a.b"), Token::Tag(s("a.b")));
    assert_eq!(one("---@divider ="), Token::Divider('='));
    assert_eq!(one("---@divider ~~~"), Token::Divider('~'));
    assert_eq!(one("---@see a.b c"), Token::See(s("a.b c")));
    assert_eq!(one("---@type number"), Token::Type(Ty::Number, None));
    assert_eq!(one("---@type number The n"), Token::Type(Ty::Number, some("The n")));
    assert_eq!(one("---@brief [["), Token::BriefStart);
    assert_eq!(one("---@brief ]]"), Token::BriefEnd);
    assert_eq!(one("---@public"), Token::Skip);
}

#[test]
fn usage_tags() {
    assert_eq!(one("---@usage `f()`"), Token::Usage(None, s("f()")));
    assert_eq!(one("---@usage lua `f()`"), Token::Usage(some("lua"), s("f()")));
    assert_eq!(one("---@usage [["), Token::UsageStart(None));
    assert_eq!(one("---@usage vim [["), Token::UsageStart(some("vim")));
    assert_eq!(one("---@usage ]]"), Token::UsageEnd);
}

#[test]
fn comments_keep_their_text() {
    assert_eq!(one("---"), Token::Comment(s("")));
    assert_eq!(one("---  two  "), Token::Comment(s("  two  ")));
    assert_eq!(one("----"), Token::Comment(s("-")));
    assert_eq!(one("---@unknown tag"), Token::Comment(s("@unknown tag")));
    assert_eq!(one("---@ param"), Token::Comment(s("@ param")));
    assert_eq!(one("---@parameter x"), Token::Comment(s("@parameter x")));
    assert_eq!(
        tokens("---a\r\n---b\r\n"),
        vec![Token::Comment(s("a")), Token::Comment(s("b"))]
    );
}

#[test]
fn other_lines_give_no_token() {
    assert_eq!(tokens(""), vec![]);
    assert_eq!(tokens("  \n\t\n"), vec![]);
    assert_eq!(tokens("-- a comment\nprint(x)\nend\nx = 1\nreturn a + b\n"), vec![]);
    assert_eq!(tokens("function f() end\nfunction a.b end\n"), vec![]);
    assert_eq!(tokens("return x\nprint(x)\n"), vec![]);
}

#[test]
fn declarations() {
    assert_eq!(
        one("function A.b.c(x)"),
        Token::Func {
            prefix: some("A"),
            name: s("c"),
            op: vec![Op::Dot(s("b")), Op::Dot(s("c"))],
            kind: Kind::Dot
        }
    );
    assert_eq!(
        one("function A.b:c ()"),
        Token::Func {
            prefix: some("A"),
            name: s("c"),
            op: vec![Op::Dot(s("b")), Op::Colon(s("c"))],
            kind: Kind::Colon
        }
    );
    assert_eq!(
        one("A.b = function(x) end"),
        Token::Func {
            prefix: some("A"),
            name: s("b"),
            op: vec![Op::Dot(s("b"))],
            kind: Kind::Dot
        }
    );
    assert_eq!(
        one("A.b.c = functions"),
        Token::Expr {
            prefix: some("A"),
            name: s("c"),
            op: vec![Op::Dot(s("b")), Op::Dot(s("c"))],
            kind: Kind::Dot
        }
    );
    assert_eq!(
        one("local function f(x)"),
        Token::Func { prefix: None, name: s("f"), op: vec![], kind: Kind::Local }
    );
    assert_eq!(
        one("local x = 1"),
        Token::Expr { prefix: None, name: s("x"), op: vec![], kind: Kind::Local }
    );
    assert_eq!(tokens("local x, y = 1, 2"), vec![]);
}

#[test]
fn the_export_ends_the_source() {
    assert_eq!(one("return M"), Token::Export(s("M")));
    assert_eq!(one("  return M  \n\n"), Token::Export(s("M")));
    assert_eq!(
        tokens("---@export M\nreturn setmetatable(M, {})\n---@tag late\n"),
        vec![Token::Export(s("M"))]
    );
}

#[test]
fn a_marker_hides_what_follows_it() {
    let src = "
---@private
---This is hidden
---@param x number
function U.f(x) end

---This is shown
function U.g() end

---@protected
function U.h() end

---@package
local x = 1
";
    assert_eq!(
        tokens(src),
        vec![
            Token::Skip,
            Token::Comment(s("This is shown")),
            Token::Func {
                prefix: some("U"),
                name: s("g"),
                op: vec![Op::Dot(s("g"))],
                kind: Kind::Dot
            },
            Token::Skip,
            Token::Skip,
        ]
    );
}

#[test]
fn a_type_may_run_over_lines() {
    assert_eq!(
        tokens("---@type fun(\n  a: string\n): number The f\nM.f = g"),
        vec![
            Token::Type(
                Ty::Fun(
                    vec![(Name::Req(s("a")), Ty::String)],
                    Some(vec![Ty::Number])
                ),
                some("The f")
            ),
            Token::Expr {
                prefix: some("M"),
                name: s("f"),
                op: vec![Op::Dot(s("f"))],
                kind: Kind::Dot
            }
        ]
    );
}

#[test]
fn spans_count_characters() {
    assert_eq!(
        lexer("  ---\u{e9}\u{e9}\n\nreturn M\n").unwrap(),
        vec![
            (Token::Comment(s("\u{e9}\u{e9}")), Span { start: 2, end: 7 }),
            (Token::Export(s("M")), Span { start: 9, end: 18 }),
        ]
    );
}

#[test]
fn malformed_annotations_are_all_reported() {
    assert_eq!(
        lexer("---@param x\n---ok\n---@type\n---@return number,\nreturn M\n"),
        Err(vec![
            LexError { span: Span { start: 0, end: 11 } },
            LexError { span: Span { start: 18, end: 26 } },
            LexError { span: Span { start: 27, end: 45 } },
        ])
    );
}

#[test]
fn each_tag_can_be_malformed() {
    let cases = [
        "---@brief",
        "---@brief text",
        "---@toc",
        "---@toc ?",
        "---@mod",
        "---@divider",
        "---@divider ",
        "---@param",
        "---@param x",
        "---@param x ",
        "---@param 1 number",
        "---@param x (number",
        "---@return",
        "---@return (",
        "---@return number 1",
        "---@class",
        "---@class ?",
        "---@class (exact)",
        "---@field",
        "---@field x",
        "---@field public",
        "---@field public number",
        "---@alias",
        "---@alias A (",
        "---@alias A|B",
        "---@type",
        "---@type {",
        "---@tag",
        "---@see",
        "---@usage",
        "---@usage text",
        "---@usage `open",
        "---@export",
        "---@export 1",
    ];
    for src in cases {
        let found = lexer(src);
        let end = src.chars().count();
        assert_eq!(
            found,
            Err(vec![LexError { span: Span { start: 0, end } }]),
            "{src}"
        );
    }
}

#[test]
fn a_block_keeps_its_lines_as_they_are() {
    let src = "---@brief [[
---@param not a tag here
---| 'nor' # a variant
---@usage ]]
---
---@brief ]]
---@usage lua [[
---@brief ]]
---local x = 1
---@usage ]]
---@tag t
";
    assert_eq!(
        tokens(src),
        vec![
            Token::BriefStart,
            Token::Comment(s("@param not a tag here")),
            Token::Comment(s("| 'nor' # a variant")),
            Token::Comment(s("@usage ]]")),
            Token::Comment(s("")),
            Token::BriefEnd,
            Token::UsageStart(some("lua")),
            Token::Comment(s("@brief ]]")),
            Token::Comment(s("local x = 1")),
            Token::UsageEnd,
            Token::Tag(s("t")),
        ]
    );
}

#[test]
fn a_line_of_code_ends_a_block() {
    let src = "---@usage [[
---@param x
local y = 1
---@param z number
---@brief [[
---@type
";
    assert_eq!(
        tokens(src),
        vec![
            Token::UsageStart(None),
            Token::Comment(s("@param x")),
            Token::Expr { prefix: None, name: s("y"), op: vec![], kind: Kind::Local },
            Token::Param(Name::Req(s("z")), Ty::Number, None),
            Token::BriefStart,
            Token::Comment(s("@type")),
        ]
    );
    assert_eq!(
        lexer("---@usage [[\nprint()\n---@type\n"),
        Err(vec![LexError { span: Span { start: 21, end: 29 } }])
    );
}
