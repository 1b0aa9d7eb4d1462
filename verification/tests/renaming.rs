use srcmerge::ast::{Expr, Generics, Type};
use srcmerge::functions::rename;
use srcmerge::items::fn_item::{FnDef, FnItem, FnType};
use srcmerge::items::item::Item;
use srcmerge::ast::Stmt;
use srcmerge::list::List;
use srcmerge::utils::path::Path;

fn empty_generics() -> Generics {
    Generics { params: List::Nil, where_clause: None }
}

fn path_expr(parts: &[&str]) -> Expr {
    let mut p = Path::new(parts[0]);
    for part in &parts[1..] {
        p = p.join(part);
    }
    Expr::Path(None, p)
}

fn option_of(name: &str) -> Type {
    let p = Path::new("Option").with(Path::new(name)).unwrap();
    Type::Path(None, p)
}

/// Renaming reaches nested occurrences: a call `Foo::new()` in the body, the
/// `Option<Foo>` return type, and the declaration's own name.
#[test]
fn rename_reaches_nested_occurrences() {
    let body = List::from_vec(vec![Stmt::Expr(
        Box::new(Expr::Call(Box::new(path_expr(&["Foo", "new"])), List::Nil)),
        true,
    )]);
    let sig = srcmerge::ast::Signature {
        ident: "Foo".to_string(),
        generics: empty_generics(),
        inputs: List::Nil,
        variadic: None,
        output: Some(Box::new(option_of("Foo"))),
    };
    let mut item = Item::Fn(FnItem::new(FnType::Global(FnDef { sig, body })));
    rename::from_item(&mut item, &"Foo".to_string(), &"Bar".to_string()).unwrap();

    let expected_body = List::from_vec(vec![Stmt::Expr(
        Box::new(Expr::Call(Box::new(path_expr(&["Bar", "new"])), List::Nil)),
        true,
    )]);
    let expected_sig = srcmerge::ast::Signature {
        ident: "Bar".to_string(),
        generics: empty_generics(),
        inputs: List::Nil,
        variadic: None,
        output: Some(Box::new(option_of("Bar"))),
    };
    let expected = Item::Fn(FnItem::new(FnType::Global(FnDef {
        sig: expected_sig,
        body: expected_body,
    })));
    assert_eq!(item, expected);
}

#[test]
fn rename_leaves_other_names_alone() {
    let mut e = path_expr(&["Foo", "Other", "Foo"]);
    rename::from_expr(&mut e, &"Foo".to_string(), &"Bar".to_string()).unwrap();
    assert_eq!(e, path_expr(&["Bar", "Other", "Bar"]));
}

#[test]
fn rename_standalone_type() {
    let mut t = option_of("Foo");
    rename::from_type(&mut t, &"Foo".to_string(), &"Bar".to_string()).unwrap();
    assert_eq!(t, option_of("Bar"));
}

#[test]
fn rename_ignores_unrelated_identifiers() {
    let mut e = Expr::MethodCall(
        Box::new(path_expr(&["value"])),
        "finish".to_string(),
        List::Nil,
    );
    rename::from_expr(&mut e, &"Foo".to_string(), &"Bar".to_string()).unwrap();
    assert_eq!(
        e,
        Expr::MethodCall(Box::new(path_expr(&["value"])), "finish".to_string(), List::Nil),
    );
}
