use srcmerge::ast::{Expr as AstExpr, Member, Pat, Stmt};
use srcmerge::error::Error;
use srcmerge::list::List;
use srcmerge::utils::path::Path;
use srcmerge::utils::statement::{Expr, ExprMethodChainCall, Statement};

fn path_expr(name: &str) -> AstExpr {
    AstExpr::Path(None, Path::new(name))
}

#[test]
fn access_field_builds_a_field_access() {
    let s = Statement::access_field(Path::new("config"), Path::new("name")).unwrap();
    assert_eq!(
        s,
        Stmt::Expr(
            Box::new(AstExpr::Field(
                Box::new(path_expr("config")),
                Member::Named("name".to_string()),
            )),
            false,
        ),
    );
}

#[test]
fn access_field_of_empty_member_fails() {
    let empty = Path { segments: List::Nil };
    assert_eq!(
        Statement::access_field(Path::new("config"), empty),
        Err(Error::EmptyPath),
    );
}

#[test]
fn let_assign_builds_a_binding() {
    let s = Statement::let_assign(Path::new("total"), Expr::Path(Path::new("sum"))).unwrap();
    match s {
        Stmt::Local(pat, init) => {
            assert_eq!(*pat, Pat::Ident("total".to_string()));
            let init = init.unwrap();
            assert_eq!(*init.expr, path_expr("sum"));
            assert!(init.diverge.is_none());
        },
        _ => panic!("expected a let statement"),
    }
}

#[test]
fn method_chain_builds_nested_calls() {
    let calls = List::from_vec(vec![
        ExprMethodChainCall::Start(Expr::Path(Path::new("value")), "iter".to_string(), List::Nil),
        ExprMethodChainCall::Chained("count".to_string(), List::Nil),
    ]);
    let s = Statement::method_chain_call(calls).unwrap();
    let expected = Stmt::Expr(
        Box::new(AstExpr::MethodCall(
            Box::new(AstExpr::MethodCall(
                Box::new(path_expr("value")),
                "iter".to_string(),
                List::Nil,
            )),
            "count".to_string(),
            List::Nil,
        )),
        true,
    );
    assert_eq!(s, expected);
}

#[test]
fn method_chain_requires_two_links() {
    let calls = List::from_vec(vec![ExprMethodChainCall::Start(
        Expr::Path(Path::new("value")),
        "iter".to_string(),
        List::Nil,
    )]);
    assert_eq!(Statement::method_chain_call(calls), Err(Error::InvalidChain));
}

#[test]
fn without_trailing_semicolon_rejects_bindings() {
    let binding = Statement::let_assign(Path::new("a"), Expr::Path(Path::new("b"))).unwrap();
    assert_eq!(
        Statement::without_trailling_semi_colon(binding),
        Err(Error::NotAnExpression),
    );
}

#[test]
fn without_trailing_semicolon_drops_the_semicolon() {
    let s = Statement::path(Path::new("value"));
    let bare = Statement::without_trailling_semi_colon(s).unwrap();
    assert_eq!(bare, Stmt::Expr(Box::new(path_expr("value")), false));
}

#[test]
fn a_binding_is_not_an_expression() {
    let binding = Statement::let_assign(Path::new("a"), Expr::Path(Path::new("b"))).unwrap();
    assert_eq!(Expr::Stmt(binding).to_expr(), Err(Error::NotAnExpression));
}

#[test]
fn let_none_condition_builds_the_guard() {
    let s = Statement::let_none_condition(Expr::Path(Path::new("slot")), List::Nil).unwrap();
    match s {
        Stmt::Expr(top, semi) => {
            assert!(!semi);
            match *top {
                AstExpr::If(cond, then, alt) => {
                    assert_eq!(then, List::Nil);
                    assert!(alt.is_none());
                    match *cond {
                        AstExpr::Let(pat, value) => {
                            assert_eq!(*pat, Pat::Ident("None".to_string()));
                            assert_eq!(*value, path_expr("slot"));
                        },
                        _ => panic!("expected a let condition"),
                    }
                },
                _ => panic!("expected a conditional"),
            }
        },
        _ => panic!("expected an expression statement"),
    }
}
