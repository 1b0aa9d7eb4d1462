use srcmerge::ast::{Fields, Generics, Signature, Stmt, Type};
use srcmerge::error::Error;
use srcmerge::items::fn_item::FnDef;
use srcmerge::items::item::Item;
use srcmerge::items::module_item::{ExternCrateItem, FlatItem, ModuleItem};
use srcmerge::items::other_item::OtherNode;
use srcmerge::items::source_file::SourceFile;
use srcmerge::items::struct_item::ItemStruct;
use srcmerge::items::use_item::{UseItem, UseTree};
use srcmerge::list::List;
use srcmerge::utils::path::Path;

fn empty_generics() -> Generics {
    Generics { params: List::Nil, where_clause: None }
}

fn plain_struct(name: &str) -> ItemStruct {
    ItemStruct { ident: name.to_string(), generics: empty_generics(), fields: Fields::Unit }
}

fn global_fn(name: &str, output: Option<&str>) -> FnDef {
    FnDef {
        sig: Signature {
            ident: name.to_string(),
            generics: empty_generics(),
            inputs: List::Nil,
            variadic: None,
            output: output.map(|o| Box::new(Type::Path(None, Path::new(o)))),
        },
        body: List::Nil,
    }
}

fn ident_of(item: &Item) -> String {
    item.ident().unwrap()
}

/// Modules `a` and `b` each declare a construct named `Config`.  After the
/// merge one module remains, holding `AConfig` and `BConfig`; the reference
/// inside module `a` is updated, while a reference from a third module that
/// declares no `Config` is left unchanged (a documented limitation).
#[test]
fn merge_collision_example() {
    let mut a = ModuleItem::new("a");
    a.push_struct(plain_struct("Config"));
    a.push_global_function(global_fn("load", Some("Config")));
    let mut b = ModuleItem::new("b");
    b.push_struct(plain_struct("Config"));
    let mut c = ModuleItem::new("c");
    c.push_global_function(global_fn("peek", Some("Config")));
    let mut file = SourceFile::new(Vec::new(), vec![a, b, c]);
    file.merge().unwrap();

    assert_eq!(file.modules.len(), 1);
    let merged = &file.modules[0];
    assert_eq!(merged.name, "");
    let names: Vec<String> = merged.items.iter().map(ident_of).collect();
    assert!(names.contains(&"AConfig".to_string()));
    assert!(names.contains(&"BConfig".to_string()));
    assert!(!names.contains(&"Config".to_string()));

    let mut load_output = None;
    let mut peek_output = None;
    for item in merged.items.iter() {
        if let Item::Fn(f) = item {
            let sig = f.item.signature();
            if sig.ident == "load" {
                load_output = Some(output_name(&sig.output));
            }
            if sig.ident == "peek" {
                peek_output = Some(output_name(&sig.output));
            }
        }
    }
    assert_eq!(load_output.unwrap(), "AConfig");
    assert_eq!(peek_output.unwrap(), "Config");
}

fn output_name(output: &Option<Box<Type>>) -> String {
    match output {
        Some(t) => match &**t {
            Type::Path(_, p) => {
                let names = p.clone_names().into_vec();
                names.last().unwrap().clone()
            },
            _ => panic!("not a path type"),
        },
        None => panic!("no output"),
    }
}

/// After a merge every freestanding-function passthrough precedes every
/// other declaration, with relative order otherwise preserved.
#[test]
fn merge_ordering_example() {
    let mut a = ModuleItem::new("first");
    a.push_struct(plain_struct("Alpha"));
    a.push_item(OtherNode::Fn(global_fn("one", None)));
    let mut b = ModuleItem::new("second");
    b.push_item(OtherNode::Fn(global_fn("two", None)));
    b.push_struct(plain_struct("Beta"));
    let mut file = SourceFile::new(Vec::new(), vec![a, b]);
    file.merge().unwrap();

    let merged = &file.modules[0];
    let kinds: Vec<bool> = merged
        .items
        .iter()
        .map(|it| matches!(it, Item::Other(o) if matches!(o.item, OtherNode::Fn(_))))
        .collect();
    assert_eq!(kinds, vec![true, true, false, false]);
    let names: Vec<String> = merged
        .items
        .iter()
        .map(|it| match it {
            Item::Struct(s) => s.item.ident.clone(),
            Item::Other(_) => "fn".to_string(),
            _ => panic!("unexpected"),
        })
        .collect();
    assert_eq!(names, vec!["fn", "fn", "Alpha", "Beta"]);
}

/// Merging collision-free modules and decomposing yields the same
/// declarations as the union of the inputs, only reordered by the canonical
/// ordering, with imports and external references de-duplicated.
#[test]
fn merge_round_trip_on_collision_free_input() {
    let mut a = ModuleItem::new("left");
    a.push_extern_crate_item(ExternCrateItem { ident: "serde".to_string(), rename: None });
    a.push_use_item(UseItem(UseTree::Path(
        "std".to_string(),
        Box::new(UseTree::Name("fs".to_string())),
    )));
    a.push_struct(plain_struct("Alpha"));
    let mut b = ModuleItem::new("right");
    b.push_extern_crate_item(ExternCrateItem { ident: "serde".to_string(), rename: None });
    b.push_use_item(UseItem(UseTree::Path(
        "std".to_string(),
        Box::new(UseTree::Name("fs".to_string())),
    )));
    b.push_struct(plain_struct("Beta"));
    b.push_global_function(global_fn("run", None));
    let mut file = SourceFile::new(Vec::new(), vec![a, b]);
    file.merge().unwrap();

    assert_eq!(file.modules.len(), 1);
    let merged = file.modules.remove(0);
    assert_eq!(merged.extern_crate_items.len(), 1);
    assert_eq!(merged.use_items.len(), 1);
    let flat = merged.decompose().unwrap();
    let mut decl_names = Vec::new();
    for node in flat.iter() {
        match node {
            FlatItem::ExternCrate(e) => assert_eq!(e.ident, "serde"),
            FlatItem::Use(u) => assert_eq!(u.to_string(), "std::fs"),
            FlatItem::Struct(s) => decl_names.push(s.ident.clone()),
            FlatItem::Fn(f) => decl_names.push(f.sig.ident.clone()),
            _ => panic!("unexpected node"),
        }
    }
    decl_names.sort();
    assert_eq!(decl_names, vec!["Alpha", "Beta", "run"]);
}

/// Imports that refer into the merged modules themselves are dropped.
#[test]
fn merge_drops_self_imports() {
    let mut a = ModuleItem::new("core_part");
    a.push_use_item(UseItem(UseTree::Path(
        "self".to_string(),
        Box::new(UseTree::Path(
            "other_part".to_string(),
            Box::new(UseTree::Name("Beta".to_string())),
        )),
    )));
    a.push_struct(plain_struct("Alpha"));
    let mut b = ModuleItem::new("other_part");
    b.push_struct(plain_struct("Beta"));
    let mut file = SourceFile::new(Vec::new(), vec![a, b]);
    file.merge().unwrap();
    assert_eq!(file.modules[0].use_items.len(), 0);
}

/// A collision whose rename walk hits an unsupported construct aborts the
/// merge; the modules keep their names, imports and external references.
#[test]
fn merge_fails_fast_on_unsupported_constructs() {
    let mut a = ModuleItem::new("a");
    a.push_struct(plain_struct("Config"));
    let mut broken = global_fn("load", Some("Config"));
    broken.body = List::from_vec(vec![Stmt::Item("mod nested;".to_string())]);
    a.push_global_function(broken);
    let mut b = ModuleItem::new("b");
    b.push_struct(plain_struct("Config"));
    let mut file = SourceFile::new(Vec::new(), vec![a, b]);
    assert_eq!(file.merge(), Err(Error::Unsupported));
    assert_eq!(file.modules.len(), 2);
    assert_eq!(file.modules[0].name, "A");
    assert_eq!(file.modules[1].name, "B");
}

#[test]
fn module_names_are_rendered_in_camel_style() {
    let m = ModuleItem::new("data_model");
    assert_eq!(m.name, "DataModel");
    assert_eq!(m.file_name, "data_model");
}

#[test]
fn use_item_identity_and_trimming() {
    let item = UseItem(UseTree::Path(
        "std".to_string(),
        Box::new(UseTree::Path(
            "path".to_string(),
            Box::new(UseTree::Name("PathBuf".to_string())),
        )),
    ));
    assert_eq!(item.to_string(), "std::path::PathBuf");
    let prefix = Path::new("std").join("path");
    assert!(item.start_with(&Path::new("std")));
    assert!(item.start_with(&prefix));
    let (trimmed, removed) = item.trim_path_prefix(&prefix);
    assert!(removed);
    assert_eq!(trimmed.to_string(), "PathBuf");
}

#[test]
fn remove_use_items_starting_with_prefix() {
    let mut m = ModuleItem::new("app");
    m.push_use_item(UseItem(UseTree::Path(
        "std".to_string(),
        Box::new(UseTree::Name("fs".to_string())),
    )));
    m.push_use_item(UseItem(UseTree::Path(
        "serde".to_string(),
        Box::new(UseTree::Name("Serialize".to_string())),
    )));
    m.remove_use_items_starting_with(&Path::new("std"));
    assert_eq!(m.use_items.len(), 1);
    assert_eq!(m.use_items[0].to_string(), "serde::Serialize");
}

#[test]
fn decompose_orders_externs_uses_then_declarations() {
    let mut m = ModuleItem::new("layout");
    m.push_struct(plain_struct("Gamma"));
    m.push_extern_crate_item(ExternCrateItem { ident: "log".to_string(), rename: None });
    m.push_use_item(UseItem(UseTree::Glob));
    let flat = m.decompose().unwrap();
    assert!(matches!(flat[0], FlatItem::ExternCrate(_)));
    assert!(matches!(flat[1], FlatItem::Use(_)));
    assert!(matches!(flat[2], FlatItem::Struct(_)));
}
