use lemmy_help::lexer::lexer;
use lemmy_help::{Member, Name, Token, Ty};

fn check(s: &str, ty: Ty) {
    let src = format!("---@type {s}");
    assert_eq!(
        lexer(&src).unwrap().into_iter().next().unwrap().0,
        Token::Type(ty, None)
    );
}

#[test]
fn types() {
    check("nil", Ty::Nil);
    check("any", Ty::Any);
    check("unknown", Ty::Unknown);
    check("boolean", Ty::Boolean);
    check("string", Ty::String);
    check("number", Ty::Number);
    check("integer", Ty::Integer);
    check("function", Ty::Function);
    check("thread", Ty::Thread);
    check("userdata", Ty::Userdata);
    check("lightuserdata", Ty::Lightuserdata);
    check("Any-Thing.El_se", Ty::Ref("Any-Thing.El_se".to_string()));

    check(
        "(string|number|table<string, string[]>)[]",
        Ty::Array(Box::new(Ty::Union(
            Box::new(Ty::String),
            Box::new(Ty::Union(
                Box::new(Ty::Number),
                Box::new(Ty::Table(Some((
                    Box::new(Ty::String),
                    Box::new(Ty::Array(Box::new(Ty::String)))
                ))))
            ))
        )))
    );

    check(
        "table<string, { get: string, set: string }>[]",
        Ty::Array(Box::new(Ty::Table(Some((
            Box::new(Ty::String),
            Box::new(Ty::Dict(vec![
                (Name::Req("get".to_string()), Ty::String),
                (Name::Req("set".to_string()), Ty::String),
            ]))
        )))))
    );

    check(
        "table<string, fun(a: string): string>",
        Ty::Table(Some((
            Box::new(Ty::String),
            Box::new(Ty::Fun(
                vec![(Name::Req("a".to_string()), Ty::String)],
                Some(vec![Ty::String])
            ))
        )))
    );

    check(
        "table<fun(), table<string, number>>",
        Ty::Table(Some((
            Box::new(Ty::Fun(vec![], None)),
            Box::new(Ty::Table(Some((Box::new(Ty::String), Box::new(Ty::Number)))))
        )))
    );

    check(
        "table<string, string|string[]|boolean>[]",
        Ty::Array(Box::new(Ty::Table(Some((
            Box::new(Ty::String),
            Box::new(Ty::Union(
                Box::new(Ty::String),
                Box::new(Ty::Union(Box::new(Ty::Array(Box::new(Ty::String))), Box::new(Ty::Boolean)))
            ))
        )))))
    );

    check(
        "fun(
            a: string, b: string|number|boolean, c: number[][], d?: SomeClass
        ): number, string|string[]",
        Ty::Fun(
            vec![
                (Name::Req("a".to_string()), Ty::String),
                (
                    Name::Req("b".to_string()),
                    Ty::Union(
                        Box::new(Ty::String),
                        Box::new(Ty::Union(Box::new(Ty::Number), Box::new(Ty::Boolean)))
                    )
                ),
                (Name::Req("c".to_string()), Ty::Array(Box::new(Ty::Array(Box::new(Ty::Number))))),
                (Name::Opt("d".to_string()), Ty::Ref("SomeClass".to_string())),
            ],
            Some(vec![
                Ty::Number,
                Ty::Union(Box::new(Ty::String), Box::new(Ty::Array(Box::new(Ty::String))))
            ])
        )
    );

    // "fun(a: string, b: (string|table<string, number>)[]|boolean, c: string[], d: number[][]): string|string[]",

    check(
        "fun(
            a: string,
            b?: string,
            c: function,
            d: fun(z: string),
            e: string|string[]|table<string, string>|fun(y: string[]|{ get: function }|string): string
        ): table<string, string>",
        Ty::Fun(
            vec![
                (Name::Req("a".to_string()), Ty::String),
                (Name::Opt("b".to_string()), Ty::String),
                (Name::Req("c".to_string()), Ty::Function),
                (
                    Name::Req("d".to_string()),
                    Ty::Fun(vec![
                        (Name::Req("z".to_string()), Ty::String)
                    ], None)
                ),
                (
                    Name::Req("e".to_string()),
                    Ty::Union(
                        Box::new(Ty::String),
                        Box::new(Ty::Union(
                            Box::new(Ty::Array(Box::new(Ty::String))),
                            Box::new(Ty::Union(
                                Box::new(Ty::Table(Some((Box::new(Ty::String), Box::new(Ty::String))))),
                                Box::new(Ty::Fun(
                                    vec![(
                                        Name::Req("y".to_string()),
                                        Ty::Union(
                                            Box::new(Ty::Array(Box::new(Ty::String))),
                                            Box::new(Ty::Union(
                                                Box::new(Ty::Dict(vec![
                                                    (Name::Req("get".to_string()), Ty::Function)
                                                ])),
                                                Box::new(Ty::String)
                                            ))
                                        )
                                    ),],
                                    Some(vec![Ty::String])
                                ))
                            ))
                        ))
                    )
                )
            ],
            Some(vec![Ty::Table(Some((Box::new(Ty::String), Box::new(Ty::String))))])
        )
    );

    check(
        "{
            inner: string,
            get: fun(a: unknown),
            set: fun(a: unknown),
            __proto__?: { _?: unknown }
        }",
        Ty::Dict(vec![
            (Name::Req("inner".to_string()), Ty::String),
            (
                Name::Req("get".to_string()),
                Ty::Fun(vec![(Name::Req("a".to_string()), Ty::Unknown)], None,)
            ),
            (
                Name::Req("set".to_string()),
                Ty::Fun(vec![(Name::Req("a".to_string()), Ty::Unknown)], None)
            ),
            (
                Name::Opt("__proto__".to_string()),
                Ty::Dict(vec![(Name::Opt("_".to_string()), Ty::Unknown)])
            )
        ])
    );

    check(
        r#"'"g@"'|string[]|'"g@$"'|number"#,
        Ty::Union(
            Box::new(Ty::Member(Member::Literal(r#""g@""#.to_string()))),
            Box::new(Ty::Union(
                Box::new(Ty::Array(Box::new(Ty::String))),
                Box::new(Ty::Union(
                    Box::new(Ty::Member(Member::Literal(r#""g@$""#.to_string()))),
                    Box::new(Ty::Number)
                ))
            ))
        )
    );

    check(
        "any|any|string|(string|number)[]|fun(a: string)|table<string, number>|userdata[]",
        Ty::Union(
            Box::new(Ty::Any),
            Box::new(Ty::Union(
                Box::new(Ty::Any),
                Box::new(Ty::Union(
                    Box::new(Ty::String),
                    Box::new(Ty::Union(
                        Box::new(Ty::Array(Box::new(Ty::Union(Box::new(Ty::String), Box::new(Ty::Number))))),
                        Box::new(Ty::Union(
                            Box::new(Ty::Fun(vec![(Name::Req("a".to_string()), Ty::String)], None)),
                            Box::new(Ty::Union(
                                Box::new(Ty::Table(Some((Box::new(Ty::String), Box::new(Ty::Number))))),
                                Box::new(Ty::Array(Box::new(Ty::Userdata)))
                            ))
                        ))
                    ))
                ))
            ))
        )
    );
}
