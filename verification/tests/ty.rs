use lemmy_help::Ty;

#[test]
fn ty_parse() {
    let conds = ["any[]"];

    for t in conds {
        let a = Ty::parse(t).unwrap();
        assert_eq!(a, Ty::Array(Box::new(Ty::Any)));
    }
}
