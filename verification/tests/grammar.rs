use lemmy_help::{Member, Name, Ty};

fn r(name: &str) -> Ty {
    Ty::Ref(name.to_string())
}

fn b(t: Ty) -> Box<Ty> {
    Box::new(t)
}

#[test]
fn union_nests_to_the_right() {
    assert_eq!(
        Ty::parse("a|b|c"),
        Some(Ty::Union(b(r("a")), b(Ty::Union(b(r("b")), b(r("c"))))))
    );
}

#[test]
fn brackets_group_a_union() {
    assert_eq!(
        Ty::parse("(a|b)|c"),
        Some(Ty::Union(b(Ty::Union(b(r("a")), b(r("b")))), b(r("c"))))
    );
    assert_eq!(
        Ty::parse("(a|b)[]"),
        Some(Ty::Array(b(Ty::Union(b(r("a")), b(r("b"))))))
    );
    assert_eq!(
        Ty::parse("a|b[]"),
        Some(Ty::Union(b(r("a")), b(Ty::Array(b(r("b"))))))
    );
}

#[test]
fn each_suffix_makes_an_array() {
    assert_eq!(
        Ty::parse("string[][][]"),
        Some(Ty::Array(b(Ty::Array(b(Ty::Array(b(Ty::String)))))))
    );
    assert_eq!(Ty::parse("string[ ]"), None);
}

#[test]
fn primitives_are_exact_keywords() {
    assert_eq!(Ty::parse("nil"), Some(Ty::Nil));
    assert_eq!(Ty::parse("lightuserdata"), Some(Ty::Lightuserdata));
    assert_eq!(Ty::parse("table"), Some(Ty::Table(None)));
    assert_eq!(Ty::parse("nilable"), Some(r("nilable")));
    assert_eq!(Ty::parse("string.buffer"), Some(r("string.buffer")));
    assert_eq!(Ty::parse("fun"), Some(r("fun")));
    assert_eq!(Ty::parse("Any"), Some(r("Any")));
}

#[test]
fn names_may_hold_letters_of_any_script() {
    assert_eq!(Ty::parse("n\u{fa}mero"), Some(r("n\u{fa}mero")));
    assert_eq!(Ty::parse("a\u{2192}b"), None);
    assert_eq!(Ty::parse("a b"), None);
}

#[test]
fn members_are_quoted_or_ticked() {
    assert_eq!(
        Ty::parse("'a b'"),
        Some(Ty::Member(Member::Literal("a b".to_string())))
    );
    assert_eq!(
        Ty::parse("`x.y`"),
        Some(Ty::Member(Member::Ident("x.y".to_string())))
    );
    assert_eq!(Ty::parse("'open"), None);
    assert_eq!(Ty::parse("`open"), None);
}

#[test]
fn whitespace_may_stand_between_the_parts() {
    assert_eq!(
        Ty::parse("  table< a ,\n b >[] | ( x|y )[]\t|fun( )  "),
        Some(Ty::Union(
            b(Ty::Array(b(Ty::Table(Some((b(r("a")), b(r("b")))))))),
            b(Ty::Union(
                b(Ty::Array(b(Ty::Union(b(r("x")), b(r("y")))))),
                b(Ty::Fun(vec![], None))
            ))
        ))
    );
}

#[test]
fn function_signatures() {
    assert_eq!(
        Ty::parse("fun( a ? : b , c, ) : d , e"),
        Some(Ty::Fun(
            vec![
                (Name::Opt("a".to_string()), r("b")),
                (Name::Req("c".to_string()), Ty::Any)
            ],
            Some(vec![r("d"), r("e")])
        ))
    );
    assert_eq!(Ty::parse("fun(a: string"), None);
    assert_eq!(Ty::parse("fun():"), None);
    assert_eq!(Ty::parse("fun (a)"), None);
}

#[test]
fn dictionaries() {
    assert_eq!(
        Ty::parse("{ a: b, }"),
        Some(Ty::Dict(vec![(Name::Req("a".to_string()), r("b"))]))
    );
    assert_eq!(Ty::parse("{}"), Some(Ty::Dict(vec![])));
    assert_eq!(Ty::parse("{ a: b"), None);
    assert_eq!(Ty::parse("{ 1: b }"), None);
}

#[test]
fn tables() {
    assert_eq!(
        Ty::parse("table<string,number>"),
        Some(Ty::Table(Some((b(Ty::String), b(Ty::Number)))))
    );
    assert_eq!(Ty::parse("table<string>"), None);
    assert_eq!(Ty::parse("table<string,number"), None);
}

#[test]
fn malformed_types() {
    assert_eq!(Ty::parse(""), None);
    assert_eq!(Ty::parse("a|"), None);
    assert_eq!(Ty::parse("|a"), None);
    assert_eq!(Ty::parse("(a"), None);
    assert_eq!(Ty::parse("a)"), None);
    assert_eq!(Ty::parse("a,b"), None);
}

#[test]
fn nesting_is_bounded() {
    let deep = format!("{}a{}", "(".repeat(128), ")".repeat(128));
    assert_eq!(Ty::parse(&deep), Some(r("a")));
    let deeper = format!("{}a{}", "(".repeat(129), ")".repeat(129));
    assert_eq!(Ty::parse(&deeper), None);
    let long = vec!["a"; 129].join("|");
    assert!(Ty::parse(&long).is_some());
    let longer = vec!["a"; 130].join("|");
    assert_eq!(Ty::parse(&longer), None);
}

#[test]
fn types_are_written_without_whitespace() {
    let cases = [
        ("nil", "nil"),
        ("any", "any"),
        ("unknown", "unknown"),
        ("boolean", "boolean"),
        ("string", "string"),
        ("number", "number"),
        ("integer", "integer"),
        ("function", "function"),
        ("thread", "thread"),
        ("userdata", "userdata"),
        ("lightuserdata", "lightuserdata"),
        ("table", "table"),
        ("Some.Name", "Some.Name"),
        ("table< string , number[] >", "table<string,number[]>"),
        ("fun( a : string , b ? : T ) : x , y", "fun(a:string,b?:T):x,y"),
        ("fun()", "fun()"),
        ("fun(a)", "fun(a:any)"),
        ("{ a : string , b ? : { c : number } }", "{a:string,b?:{c:number}}"),
        ("a | b | c", "a|b|c"),
        ("(a|b)[]", "(a|b)[]"),
        ("((a))[]", "a[]"),
        ("(a|b)|c", "(a|b)|c"),
        ("a|(b|c)", "a|b|c"),
        ("(fun():a)[]", "(fun():a)[]"),
        ("(fun():a)|b", "(fun():a)|b"),
        ("a|fun():b", "a|fun():b"),
        ("(a|fun():b)[]|c", "(a|fun():b)[]|c"),
        ("table<(fun():a), b>", "table<(fun():a),b>"),
        ("table<a|(fun():b), fun():c>", "table<(a|fun():b),fun():c>"),
        ("fun(a: (fun(): b), c: fun(): d)", "fun(a:(fun():b),c:fun():d)"),
        ("fun(): (fun(): a), fun(): b", "fun():(fun():a),fun():b"),
        ("{ a: (fun(): b), c: fun(): d }", "{a:(fun():b),c:fun():d}"),
        ("(a)", "a"),
        ("'x'", "\"x\""),
        ("'\"x\"'", "\"x\""),
        ("'\"\"'", "\"\""),
        ("`x`", "x"),
    ];
    for (text, shown) in cases {
        assert_eq!(Ty::parse(text).unwrap().to_string(), shown, "{text}");
    }
}

#[test]
fn a_written_type_reads_back_as_itself() {
    let cases = [
        "nil",
        "table",
        "Some-Name.x_1",
        "string[][]",
        "table<string,number[]>",
        "table<table<a,b>,fun(x:y):z>",
        "fun(a:string,b?:T):x,y",
        "fun(cb:fun(e:string),n:number):table<string,fun():nil>",
        "{a:string,b?:{c:number[]},d:fun():x}",
        "a|b[]|table<x,y>|fun()|{k:v}",
        "fun():a|b",
        "(string|number)[]",
        "((a|b)[]|c)[][]",
        "(a|b)|(c|d)|e",
        "(fun():a)[]",
        "(fun():a,b)|c",
        "table<(fun():a),(b|fun():c)[]>",
        "fun(a:(fun():b),c:(d|fun():e),f:fun():g):(fun():h),fun():i",
        "{a:(fun():b),c:fun():d}",
    ];
    for text in cases {
        let ty = Ty::parse(text).unwrap();
        assert_eq!(ty.to_string(), text);
        assert_eq!(Ty::parse(&ty.to_string()), Some(ty));
    }
}

#[test]
fn a_type_keeps_its_shape() {
    let cases = [
        "(string|number|table<string, string[]>)[]",
        "( a | ( b | c )[] ) | ( ( d ) )",
        "fun( a ? : (fun(): x) , b : y | (fun(): z , w) ) : ( p | q )[] , r",
        "table< ( k | fun(): l ) , fun(): m >",
        "{ a: ((fun(): b)[]), c?: (d), }",
    ];
    for text in cases {
        let ty = Ty::parse(text).unwrap();
        assert_eq!(Ty::parse(&ty.to_string()), Some(ty), "{text}");
    }
    let array_of_union = Ty::Array(b(Ty::Union(b(Ty::String), b(Ty::Number))));
    assert_eq!(array_of_union.to_string(), "(string|number)[]");
    assert_eq!(Ty::parse("(string|number)[]"), Some(array_of_union));
}

#[test]
fn a_type_is_copied_whole() {
    let ty = Ty::parse("fun(a:string,b?:{c:'x'|`y`}):table<k,v[]>|nil").unwrap();
    assert_eq!(ty.copy(), ty);
}

#[test]
fn names_and_members_as_text() {
    assert_eq!(Name::Req("a".to_string()).to_string(), "a");
    assert_eq!(Name::Opt("a".to_string()).to_string(), "a?");
    assert_eq!(Member::Literal("\"\"a\"b\"".to_string()).to_string(), "\"a\"b\"");
    assert_eq!(Member::Literal("\"".to_string()).to_string(), "\"\"");
    assert_eq!(Member::Ident("a.b".to_string()).to_string(), "a.b");
}
