use voile::common::SyntaxInfo;
use voile::parse::parse_str;
use voile::surf::{DeclKind, Expr, Ident};

#[test]
fn simple_declaration_parsing() {
    parse_str("val a : b;").unwrap();
    parse_str("val a : b").unwrap_err();
    parse_str("a : b").unwrap_err();
    parse_str("let a = b;").unwrap();
    parse_str("a = b").unwrap_err();
}

#[test]
fn primary_expr_parsing() {
    parse_str("let a = Type233;").unwrap();
    parse_str("let zero = 'Zero;").unwrap();
    parse_str("let van = (Type233);").unwrap();
    parse_str("let darkholm = (Type233;").unwrap_err();
}

#[test]
fn simple_expr_parsing() {
    parse_str("let kirisame = utsuho|hakurei;")
        .map(|ast| println!("{:?}", ast))
        .unwrap();
    parse_str("let reimu = marisa|>alice;")
        .map(|ast| println!("{:?}", ast))
        .unwrap();
    parse_str("let madoka = homura sayaka kyoko;")
        .map(|ast| println!("{:?}", ast))
        .unwrap();
    parse_str("let komeji = satori$koishi orin$okku;")
        .map(|ast| println!("{:?}", ast))
        .unwrap();
}

#[test]
fn type_literal_level_value() {
    let decls = parse_str("let a = Type233;").unwrap();
    assert_eq!(decls.len(), 1);
    assert_eq!(decls[0].kind, DeclKind::Impl);
    match &decls[0].body {
        Expr::Type(_, level) => assert_eq!(*level, 233),
        other => panic!("expected a Type literal, got {:?}", other),
    }
}

#[test]
fn declaration_kinds_and_spans() {
    let decls = parse_str("val a : b;\nlet c = d;").unwrap();
    assert_eq!(decls.len(), 2);
    assert_eq!(decls[0].kind, DeclKind::Sign);
    assert_eq!(decls[1].kind, DeclKind::Impl);
    assert_eq!(decls[0].name, Ident { info: SyntaxInfo { start: 4, end: 5 } });
    assert_eq!(decls[1].name, Ident { info: SyntaxInfo { start: 15, end: 16 } });
}

#[test]
fn expr_operator_shapes() {
    let sum = parse_str("let a = b|c;").unwrap();
    assert!(matches!(&sum[0].body, Expr::Sum(_, _)));
    let pipe = parse_str("let a = b|>c;").unwrap();
    assert!(matches!(&pipe[0].body, Expr::Pipe(_, _)));
    let app = parse_str("let a = f x y;").unwrap();
    match &app[0].body {
        Expr::App(fx, _) => assert!(matches!(&**fx, Expr::App(_, _))),
        other => panic!("expected nested applications, got {:?}", other),
    }
}

#[test]
fn oversized_level_is_rejected() {
    parse_str("let a = Type99999999999;").unwrap_err();
    parse_str("let a = Type4294967295;").unwrap();
}

#[test]
fn meta_var_and_empty_input() {
    assert_eq!(parse_str("").unwrap().len(), 0);
    assert_eq!(parse_str("   \n\t ").unwrap().len(), 0);
    let decls = parse_str("let a = _;").unwrap();
    assert!(matches!(&decls[0].body, Expr::Meta(_)));
}

#[test]
fn constructor_fold_shapes() {
    let f = Expr::Var(Ident { info: SyntaxInfo { start: 0, end: 1 } });
    let a = Expr::Var(Ident { info: SyntaxInfo { start: 2, end: 3 } });
    let b = Expr::Var(Ident { info: SyntaxInfo { start: 4, end: 5 } });
    let folded = Expr::app(f, vec![a, b]);
    match folded {
        Expr::App(inner, last) => {
            assert!(matches!(*inner, Expr::App(_, _)));
            assert!(matches!(*last, Expr::Var(_)));
        }
        other => panic!("expected nested applications, got {:?}", other),
    }
}
