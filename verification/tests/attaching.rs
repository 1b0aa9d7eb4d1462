use srcmerge::ast::{Fields, Generics, Type};
use srcmerge::error::Error;
use srcmerge::functions::{rename, transform};
use srcmerge::items::implementation_item::{ImplementationItem, ItemImpl};
use srcmerge::items::item::Item;
use srcmerge::items::module_item::ModuleItem;
use srcmerge::items::struct_item::ItemStruct;
use srcmerge::list::List;
use srcmerge::utils::path::Path;

fn empty_generics() -> Generics {
    Generics { params: List::Nil, where_clause: None }
}

fn impl_for(name: &str) -> ItemImpl {
    ItemImpl {
        generics: empty_generics(),
        trait_: None,
        self_ty: Box::new(Type::Path(None, Path::new(name))),
        items: List::Nil,
    }
}

#[test]
fn implementation_attaches_to_its_struct() {
    let mut m = ModuleItem::new("owner");
    m.push_struct(ItemStruct {
        ident: "Widget".to_string(),
        generics: empty_generics(),
        fields: Fields::Unit,
    });
    m.push_impl_to_struct(impl_for("Widget")).unwrap();
    match &m.items[0] {
        Item::Struct(s) => match &s.impl_items {
            List::Cons(first, _) => {
                assert_eq!(first.ident().unwrap(), "Widget");
            },
            List::Nil => panic!("the block must be attached"),
        },
        _ => panic!("expected the struct"),
    }
}

#[test]
fn unmatched_implementation_is_reported() {
    let mut m = ModuleItem::new("owner_two");
    m.push_struct(ItemStruct {
        ident: "Widget".to_string(),
        generics: empty_generics(),
        fields: Fields::Unit,
    });
    assert_eq!(
        m.push_impl_to_struct(impl_for("Gadget")),
        Err(Error::UnmatchedImplementation),
    );
}

#[test]
fn implementation_splits_out_member_functions() {
    let attached = ImplementationItem::new(impl_for("Widget"));
    assert_eq!(attached.functions, List::Nil);
    assert_eq!(attached.item.items, List::Nil);
}

#[test]
fn find_item_by_ident_reads_the_live_name() {
    let mut m = ModuleItem::new("finder");
    m.push_struct(ItemStruct {
        ident: "First".to_string(),
        generics: empty_generics(),
        fields: Fields::Unit,
    });
    m.push_struct(ItemStruct {
        ident: "Second".to_string(),
        generics: empty_generics(),
        fields: Fields::Unit,
    });
    assert_eq!(m.find_item_by_ident(&"Second".to_string()), Some(1));
    assert_eq!(m.find_item_by_ident(&"Missing".to_string()), None);
    // The identity is read live: an earlier rename is immediately visible.
    let index = m.find_item_by_ident(&"First".to_string()).unwrap();
    let mut item = m.items.remove(index);
    rename::from_item(&mut item, &"First".to_string(), &"Renamed".to_string()).unwrap();
    m.items.insert(index, item);
    assert_eq!(m.find_item_by_ident(&"First".to_string()), None);
    assert_eq!(m.find_item_by_ident(&"Renamed".to_string()), Some(0));
}

#[test]
fn transform_runs_a_caller_chosen_context() {
    let mut ctx = rename::create_context(&"alpha".to_string(), &"beta".to_string());
    let mut t = Type::Path(None, Path::new("alpha"));
    transform::from_type(&mut t, &mut ctx).unwrap();
    assert_eq!(t, Type::Path(None, Path::new("beta")));
}
