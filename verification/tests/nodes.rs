use lemmy_help::lexer::lexer;
use lemmy_help::parser::{node_parser, parse_nodes};
use lemmy_help::{
    document, Alias, AliasKind, Brief, Class, Code, Divider, Field, Func, Kind, LemmyHelp,
    Member, Module, Name, Node, Nodes, Op, Param, Prefix, Return, Scope, See, Settings, Span,
    Tag, Token, Ty, Type, Usage,
};

fn s(text: &str) -> String {
    text.to_string()
}

fn some(text: &str) -> Option<String> {
    Some(text.to_string())
}

fn nodes(src: &str) -> Vec<Node> {
    parse_nodes(&lexer(src).unwrap()).0
}

fn prefix(name: &str) -> Prefix {
    Prefix { left: some(name), right: some(name) }
}

fn no_prefix() -> Prefix {
    Prefix { left: None, right: None }
}

#[test]
fn end_to_end() {
    let src = "local U = {}
---Add two numbers
---@param a number
---@param b number
---@return number
function U.sum(a, b)
  return a + b
end
return U
";
    let doc = document(src, &Settings::default()).unwrap();
    assert_eq!(
        doc.into_nodes(),
        vec![Node::Func(Func {
            prefix: prefix("U"),
            kind: Kind::Dot,
            op: vec![Op::Dot(s("sum"))],
            desc: vec![s("Add two numbers")],
            params: vec![
                Param { name: Name::Req(s("a")), ty: Ty::Number, desc: vec![] },
                Param { name: Name::Req(s("b")), ty: Ty::Number, desc: vec![] },
            ],
            returns: vec![Return { ty: Ty::Number, name: None, desc: vec![] }],
            see: See { refs: vec![] },
            usage: None,
        })]
    );
}

#[test]
fn enum_alias() {
    assert_eq!(
        nodes("---@alias Color\n---| 'red'\n---| 'blue' # the sky"),
        vec![Node::Alias(Alias {
            name: s("Color"),
            desc: vec![],
            kind: AliasKind::Enum(vec![
                (Member::Literal(s("red")), None),
                (Member::Literal(s("blue")), some("the sky")),
            ]),
            prefix: no_prefix(),
        })]
    );
}

#[test]
fn type_alias_takes_no_variants() {
    assert_eq!(
        parse_nodes(&lexer("---An id\n---@alias ID string\n---| 'red'").unwrap()),
        (
            vec![Node::Alias(Alias {
                name: s("ID"),
                desc: vec![s("An id")],
                kind: AliasKind::Type(Ty::String),
                prefix: no_prefix(),
            })],
            vec![Span { start: 29, end: 39 }]
        )
    );
}

#[test]
fn private_block_is_skipped() {
    let src = "
---@private
---Hidden
---@param x number
function U.f(x) end

---Shown
function U.g() end
";
    assert_eq!(
        parse_nodes(&lexer(src).unwrap()),
        (
            vec![Node::Func(Func {
                prefix: prefix("U"),
                kind: Kind::Dot,
                op: vec![Op::Dot(s("g"))],
                desc: vec![s("Shown")],
                params: vec![],
                returns: vec![],
                see: See { refs: vec![] },
                usage: None,
            })],
            vec![Span { start: 1, end: 61 }]
        )
    );
}

#[test]
fn descriptions_keep_empty_lines() {
    let src = "---First
---
---Second
---@param a number The a
---more
---
---@param b number
---only
---@return number #The sum
---@return string
---
---last
---@see one
---@see two
---@usage lua [[
---f()
---
---g()
---@usage ]]
function M.f(a, b) end
";
    assert_eq!(
        nodes(src),
        vec![Node::Func(Func {
            prefix: prefix("M"),
            kind: Kind::Dot,
            op: vec![Op::Dot(s("f"))],
            desc: vec![s("First"), s(""), s("Second")],
            params: vec![
                Param {
                    name: Name::Req(s("a")),
                    ty: Ty::Number,
                    desc: vec![s("The a"), s("more"), s("")]
                },
                Param { name: Name::Req(s("b")), ty: Ty::Number, desc: vec![s("only")] },
            ],
            returns: vec![
                Return { ty: Ty::Number, name: None, desc: vec![s("The sum")] },
                Return { ty: Ty::String, name: None, desc: vec![s(""), s("last")] },
            ],
            see: See { refs: vec![s("one"), s("two")] },
            usage: Some(Usage {
                lang: some("lua"),
                code: Code::MultiLine(vec![s("f()"), s(""), s("g()")])
            }),
        })]
    );
}

#[test]
fn a_class_gathers_its_fields() {
    let src = "---A class
---@class A : B Short
---@field x number The x
---Above y
---@field private y? string
---@see other
---trailing
";
    assert_eq!(
        parse_nodes(&lexer(src).unwrap()),
        (
            vec![Node::Class(Class {
                name: s("A"),
                parent: some("B"),
                desc: vec![s("Short"), s("A class")],
                fields: vec![
                    Field {
                        scope: Scope::Public,
                        name: Name::Req(s("x")),
                        ty: Ty::Number,
                        desc: vec![s("The x")]
                    },
                    Field {
                        scope: Scope::Private,
                        name: Name::Opt(s("y")),
                        ty: Ty::String,
                        desc: vec![s("Above y")]
                    },
                ],
                see: See { refs: vec![s("other")] },
                prefix: no_prefix(),
            })],
            vec![Span { start: 111, end: 122 }]
        )
    );
}

#[test]
fn a_documented_value() {
    let src = "---The pi
---@type number About three
---@see tau
---@usage `print(M.pi)`
M.consts.pi = 3.14
";
    assert_eq!(
        nodes(src),
        vec![Node::Type(Type {
            desc: (vec![s("The pi")], some("About three")),
            prefix: prefix("M"),
            kind: Kind::Dot,
            op: vec![Op::Dot(s("consts")), Op::Dot(s("pi"))],
            ty: Ty::Number,
            see: See { refs: vec![s("tau")] },
            usage: Some(Usage { lang: None, code: Code::InLine(s("print(M.pi)")) }),
        })]
    );
}

#[test]
fn single_tokens_are_nodes() {
    let src = "---@mod a.b The module
---@divider -
---@tag t
---@toc c
---@brief [[
---text
---
---@brief ]]
return M
";
    assert_eq!(
        nodes(src),
        vec![
            Node::Module(Module { name: s("a.b"), desc: some("The module") }),
            Node::Divider(Divider('-')),
            Node::Tag(Tag(s("t"))),
            Node::Toc(s("c")),
            Node::Brief(Brief { desc: vec![s("text"), s("")] }),
            Node::Export(s("M")),
        ]
    );
}

#[test]
fn what_cannot_be_read_costs_its_own_tokens() {
    let src = "---stray comment
---@param x number
---@brief [[
---never closed
---@usage [[
---@return number
local y = 1
---@type number
function M.f() end
---@tag t
";
    let tokens = lexer(src).unwrap();
    let (found, skipped) = parse_nodes(&tokens);
    assert_eq!(
        found,
        vec![
            Node::Func(Func {
                prefix: prefix("M"),
                kind: Kind::Dot,
                op: vec![Op::Dot(s("f"))],
                desc: vec![],
                params: vec![],
                returns: vec![],
                see: See { refs: vec![] },
                usage: None,
            }),
            Node::Tag(Tag(s("t"))),
        ]
    );
    let spans: Vec<Span> = tokens.iter().take(8).map(|(_, span)| *span).collect();
    assert_eq!(skipped, spans);
}

#[test]
fn one_node_at_a_place() {
    let tokens = lexer("---c\n---@tag t\n---@tag u\n").unwrap();
    assert_eq!(node_parser(&tokens, 0), None);
    assert_eq!(node_parser(&tokens, 1), Some((Node::Tag(Tag(s("t"))), 2)));
    assert_eq!(node_parser(&tokens, 3), None);
    assert_eq!(tokens[0].0, Token::Comment(s("c")));
}

#[test]
fn a_local_function_is_documented_but_never_exported() {
    let src = "---Local
local function f() end
return f
";
    assert_eq!(
        nodes(src),
        vec![
            Node::Func(Func {
                prefix: no_prefix(),
                kind: Kind::Local,
                op: vec![],
                desc: vec![s("Local")],
                params: vec![],
                returns: vec![],
                see: See { refs: vec![] },
                usage: None,
            }),
            Node::Export(s("f")),
        ]
    );
    assert_eq!(document(src, &Settings::default()).unwrap().into_nodes(), vec![]);
}

#[test]
fn files_are_gathered_in_order() {
    let mut help = LemmyHelp::new();
    help.for_help("---@tag a\nreturn M").unwrap();
    help.for_help("---@tag no.export").unwrap();
    help.for_help("---@tag b\nreturn M").unwrap();
    assert_eq!(
        help.nodes,
        vec![Node::Tag(Tag(s("a"))), Node::Tag(Tag(s("b")))]
    );
    help.parse("---@tag c\nreturn M").unwrap();
    assert_eq!(help.nodes().len(), 4);
    assert_eq!(help.nodes[3], Node::Export(s("M")));
}

#[test]
fn a_malformed_file_adds_nothing() {
    let mut help = LemmyHelp::new();
    help.for_help("---@tag a\nreturn M").unwrap();
    let failed = help.for_help("---@tag b\n---@param\nreturn M");
    assert_eq!(failed.unwrap_err().len(), 1);
    assert_eq!(help.parse("---@type").unwrap_err().len(), 1);
    assert_eq!(help.nodes, vec![Node::Tag(Tag(s("a")))]);
    assert_eq!(
        lemmy_help::parser("---@tag b\n---@param\nreturn M", &Settings::default()).into_nodes(),
        vec![]
    );
    assert!(document("---@tag b\n---@param\nreturn M", &Settings::default()).is_err());
}
