use srcmerge::ast::{Expr, Field, Fields, Generics, Signature, Stmt, Type};
use srcmerge::error::Error;
use srcmerge::functions::trim_path;
use srcmerge::items::fn_item::FnDef;
use srcmerge::items::item::Item;
use srcmerge::items::module_item::ModuleItem;
use srcmerge::items::source_file::SourceFile;
use srcmerge::items::struct_item::ItemStruct;
use srcmerge::list::List;
use srcmerge::utils::path::Path;

fn empty_generics() -> Generics {
    Generics { params: List::Nil, where_clause: None }
}

fn path_type(parts: &[&str]) -> Type {
    let mut p = Path::new(parts[0]);
    for part in &parts[1..] {
        p = p.join(part);
    }
    Type::Path(None, p)
}

/// Trimming a whole source file rewrites every qualified name that starts
/// with the prefix, inside field types and signatures alike.
#[test]
fn trim_pass_over_source_file() {
    let mut module = ModuleItem::new("app");
    module.push_struct(ItemStruct {
        ident: "MyStruct".to_string(),
        generics: empty_generics(),
        fields: Fields::Named(List::from_vec(vec![Field {
            ident: Some("my_field".to_string()),
            ty: path_type(&["std", "path", "PathBuf"]),
        }])),
    });
    module.push_global_function(FnDef {
        sig: Signature {
            ident: "open".to_string(),
            generics: empty_generics(),
            inputs: List::Nil,
            variadic: None,
            output: Some(Box::new(path_type(&["std", "path", "PathBuf"]))),
        },
        body: List::Nil,
    });
    let mut file = SourceFile::new(Vec::new(), vec![module]);
    let prefix = Path::new("std").join("path");
    trim_path::from_source_file(&mut file, &prefix).unwrap();

    let items = &file.modules[0].items;
    match &items[0] {
        Item::Struct(s) => match &s.item.fields {
            Fields::Named(fields) => match fields {
                List::Cons(first, _) => assert_eq!(first.ty, path_type(&["PathBuf"])),
                List::Nil => panic!("expected one field"),
            },
            _ => panic!("expected named fields"),
        },
        _ => panic!("expected the struct"),
    }
    match &items[1] {
        Item::Fn(f) => {
            let sig = f.item.signature();
            match &sig.output {
                Some(t) => assert_eq!(**t, path_type(&["PathBuf"])),
                None => panic!("expected an output"),
            }
        },
        _ => panic!("expected the function"),
    }
}

/// A prefix that would remove a one-segment name leaves the file unchanged.
#[test]
fn trim_pass_declines_single_segments() {
    let mut module = ModuleItem::new("app_two");
    module.push_global_function(FnDef {
        sig: Signature {
            ident: "open".to_string(),
            generics: empty_generics(),
            inputs: List::Nil,
            variadic: None,
            output: Some(Box::new(path_type(&["PathBuf"]))),
        },
        body: List::Nil,
    });
    let mut file = SourceFile::new(Vec::new(), vec![module]);
    let prefix = Path::new("PathBuf");
    trim_path::from_source_file(&mut file, &prefix).unwrap();
    match &file.modules[0].items[0] {
        Item::Fn(f) => match &f.item.signature().output {
            Some(t) => assert_eq!(**t, path_type(&["PathBuf"])),
            None => panic!("expected an output"),
        },
        _ => panic!("expected the function"),
    }
}

/// Trimming a standalone expression rewrites qualified call paths.
#[test]
fn trim_pass_over_expression() {
    let mut e = Expr::Call(
        Box::new(Expr::Path(
            None,
            Path::new("std").join("path").join("PathBuf").join("new"),
        )),
        List::Nil,
    );
    let prefix = Path::new("std").join("path");
    trim_path::from_expr(&mut e, &prefix).unwrap();
    assert_eq!(
        e,
        Expr::Call(
            Box::new(Expr::Path(None, Path::new("PathBuf").join("new"))),
            List::Nil,
        ),
    );
}

/// A nested item in statement position aborts the trim pass.
#[test]
fn trim_pass_fails_on_nested_items() {
    let mut e = Expr::Block(
        None,
        List::from_vec(vec![Stmt::Item("mod nested;".to_string())]),
    );
    let prefix = Path::new("std");
    assert_eq!(trim_path::from_expr(&mut e, &prefix), Err(Error::Unsupported));
}
