use lemmy_help::xref::{bind, cross_reference, export_name, find_module};
use lemmy_help::{
    Alias, AliasKind, Class, Func, Kind, LemmyHelp, Module, Node, Op, Prefix, Rename, See,
    Settings, Tag, Ty, Type,
};

fn s(text: &str) -> String {
    text.to_string()
}

fn some(text: &str) -> Option<String> {
    Some(text.to_string())
}

fn func(left: Option<&str>, kind: Kind, name: &str) -> Func {
    let prefix = left.map(|l| l.to_string());
    Func {
        prefix: Prefix { left: prefix.clone(), right: prefix },
        kind,
        op: vec![Op::Dot(s(name))],
        desc: vec![],
        params: vec![],
        returns: vec![],
        see: See { refs: vec![] },
        usage: None,
    }
}

fn value(left: Option<&str>, kind: Kind, name: &str) -> Type {
    let prefix = left.map(|l| l.to_string());
    Type {
        desc: (vec![], None),
        prefix: Prefix { left: prefix.clone(), right: prefix },
        kind,
        op: vec![Op::Dot(s(name))],
        ty: Ty::Number,
        see: See { refs: vec![] },
        usage: None,
    }
}

fn alias(name: &str) -> Alias {
    Alias {
        name: s(name),
        desc: vec![],
        kind: AliasKind::Type(Ty::String),
        prefix: Prefix { left: None, right: None },
    }
}

fn class(name: &str) -> Class {
    Class {
        name: s(name),
        parent: None,
        desc: vec![],
        fields: vec![],
        see: See { refs: vec![] },
        prefix: Prefix { left: None, right: None },
    }
}

fn keep() -> Rename {
    Rename::default()
}

fn all() -> Rename {
    Rename { func: true, alias: true, class: true, ty: true }
}

#[test]
fn export_filtering() {
    let nodes = vec![
        Node::Func(func(Some("U"), Kind::Dot, "a")),
        Node::Func(func(Some("U"), Kind::Local, "b")),
        Node::Func(func(Some("V"), Kind::Dot, "c")),
        Node::Func(func(None, Kind::Dot, "d")),
        Node::Export(s("U")),
    ];
    assert_eq!(
        cross_reference(nodes, &keep()),
        vec![Node::Func(func(Some("U"), Kind::Dot, "a"))]
    );
}

#[test]
fn values_are_filtered_as_functions_are() {
    let nodes = vec![
        Node::Type(value(Some("U"), Kind::Dot, "a")),
        Node::Type(value(Some("U"), Kind::Local, "b")),
        Node::Type(value(Some("V"), Kind::Dot, "c")),
        Node::Type(value(None, Kind::Local, "d")),
        Node::Type(value(Some("U"), Kind::Colon, "e")),
        Node::Export(s("U")),
    ];
    assert_eq!(
        cross_reference(nodes, &keep()),
        vec![
            Node::Type(value(Some("U"), Kind::Dot, "a")),
            Node::Type(value(Some("U"), Kind::Colon, "e")),
        ]
    );
}

#[test]
fn a_second_pass_changes_nothing() {
    let nodes = vec![
        Node::Module(Module { name: s("mod"), desc: None }),
        Node::Func(func(Some("U"), Kind::Dot, "a")),
        Node::Alias(alias("A")),
        Node::Class(class("C")),
        Node::Type(value(Some("U"), Kind::Dot, "v")),
        Node::Export(s("U")),
    ];
    let once = cross_reference(nodes, &all());
    let mut renamed_func = func(Some("U"), Kind::Dot, "a");
    renamed_func.prefix.right = some("mod");
    let mut renamed_alias = alias("A");
    renamed_alias.prefix.right = some("mod");
    let mut renamed_class = class("C");
    renamed_class.prefix.right = some("mod");
    let mut renamed_value = value(Some("U"), Kind::Dot, "v");
    renamed_value.prefix.right = some("mod");
    let expected = vec![
        Node::Module(Module { name: s("mod"), desc: None }),
        Node::Func(renamed_func),
        Node::Alias(renamed_alias),
        Node::Class(renamed_class),
        Node::Type(renamed_value),
    ];
    assert_eq!(once, expected);
    let twice = cross_reference(once, &keep());
    assert_eq!(twice, expected);
    let thrice = cross_reference(twice, &all());
    assert_eq!(thrice, expected);
}

#[test]
fn a_batch_without_export_is_left_alone() {
    let nodes = vec![
        Node::Export(s("U")),
        Node::Func(func(Some("V"), Kind::Local, "a")),
        Node::Tag(Tag(s("t"))),
    ];
    assert_eq!(
        cross_reference(nodes, &all()),
        vec![
            Node::Export(s("U")),
            Node::Func(func(Some("V"), Kind::Local, "a")),
            Node::Tag(Tag(s("t"))),
        ]
    );
    assert_eq!(cross_reference(vec![], &all()), vec![]);
}

#[test]
fn every_export_is_dropped() {
    let nodes = vec![Node::Export(s("A")), Node::Tag(Tag(s("t"))), Node::Export(s("B"))];
    assert_eq!(cross_reference(nodes, &keep()), vec![Node::Tag(Tag(s("t")))]);
}

#[test]
fn the_nearest_module_names_the_tags() {
    let nodes = vec![
        Node::Module(Module { name: s("first"), desc: None }),
        Node::Alias(alias("A")),
        Node::Module(Module { name: s("second"), desc: some("d") }),
        Node::Alias(alias("B")),
        Node::Export(s("U")),
    ];
    assert_eq!(find_module(&nodes, 4, &s("U")), "second");
    assert_eq!(find_module(&nodes, 2, &s("U")), "first");
    assert_eq!(find_module(&nodes, 0, &s("U")), "U");
    assert_eq!(export_name(&nodes), some("U"));
    let out = cross_reference(nodes, &Rename { alias: true, ..keep() });
    let mut a = alias("A");
    a.prefix.right = some("second");
    let mut b = alias("B");
    b.prefix.right = some("second");
    assert_eq!(out[1], Node::Alias(a));
    assert_eq!(out[3], Node::Alias(b));
}

#[test]
fn without_a_module_the_export_names_the_tags() {
    let nodes = vec![Node::Class(class("C")), Node::Export(s("U"))];
    let mut c = class("C");
    c.prefix.right = some("U");
    assert_eq!(
        cross_reference(nodes, &Rename { class: true, ..keep() }),
        vec![Node::Class(c)]
    );
    assert_eq!(export_name(&vec![Node::Tag(Tag(s("t")))]), None);
    assert_eq!(export_name(&vec![]), None);
}

#[test]
fn each_choice_renames_its_own_kind() {
    for (rename, kind) in [
        (Rename { func: true, ..keep() }, 0),
        (Rename { alias: true, ..keep() }, 1),
        (Rename { class: true, ..keep() }, 2),
        (Rename { ty: true, ..keep() }, 3),
    ] {
        let nodes = [
            Node::Func(func(Some("U"), Kind::Dot, "f")),
            Node::Alias(alias("A")),
            Node::Class(class("C")),
            Node::Type(value(Some("U"), Kind::Dot, "v")),
        ];
        for (i, node) in nodes.into_iter().enumerate() {
            let out = bind(node, &s("U"), &s("m"), &rename).unwrap();
            let right = match out {
                Node::Func(f) => f.prefix.right,
                Node::Alias(a) => a.prefix.right,
                Node::Class(c) => c.prefix.right,
                Node::Type(t) => t.prefix.right,
                _ => unreachable!(),
            };
            let declared = if i == 0 || i == 3 { some("U") } else { None };
            assert_eq!(right, if i == kind { some("m") } else { declared });
        }
    }
    assert_eq!(bind(Node::Export(s("U")), &s("U"), &s("m"), &all()), None);
}

#[test]
fn the_declared_qualifier_decides() {
    let f = func(Some("U"), Kind::Dot, "f");
    assert!(f.is_public(&s("U")));
    assert!(!f.is_public(&s("V")));
    assert!(!func(Some("U"), Kind::Local, "f").is_public(&s("U")));
    assert!(!func(None, Kind::Dot, "f").is_public(&s("U")));
    assert!(value(Some("U"), Kind::Colon, "v").is_public(&s("U")));
    assert!(!value(Some("U"), Kind::Local, "v").is_public(&s("U")));
    assert_eq!(Kind::Dot.as_char(), '.');
    assert_eq!(Kind::Colon.as_char(), ':');
}

#[test]
fn settings_choose_the_tags() {
    let s = Settings { prefix_alias: true, prefix_type: true, ..Default::default() };
    assert_eq!(s.rename(), Rename { func: false, alias: true, class: false, ty: true });
    let help = LemmyHelp::with_rename(s.rename());
    assert_eq!(help.rename, s.rename());
    assert_eq!(LemmyHelp::default().rename, keep());
}
