//! A struct declaration together with its attached implementation blocks.

use crate::ast::{Fields, Generics};
use crate::error::Error;
use crate::items::implementation_item::{ImplementationItem, ItemImpl};
use crate::list::List;
use crate::walkers::fields::{walk_fields_spec, FieldsWalker};
use crate::walkers::generics::{walk_generics_spec, GenericsWalker};
use crate::walkers::{walk_ident, walk_ident_spec, Context};
use vstd::prelude::*;

verus! {

/// A struct declaration: name, generics, fields.
#[derive(Debug, PartialEq, Eq)]
pub struct ItemStruct {
    pub ident: String,
    pub generics: Generics,
    pub fields: Fields,
}

/// A struct declaration with its attached implementation blocks.
#[derive(Debug, PartialEq, Eq)]
pub struct StructItem {
    pub item: ItemStruct,
    pub impl_items: List<ImplementationItem>,
}

/// Attached implementation blocks built from parsed blocks, in order.
pub open spec fn spec_attach_impls(l: List<ItemImpl>) -> List<ImplementationItem>
    decreases l,
{
    match l {
        List::Nil => List::Nil,
        List::Cons(head, tail) => {
            let split = ImplementationItem {
                item: ItemImpl {
                    generics: head.generics,
                    trait_: head.trait_,
                    self_ty: head.self_ty,
                    items: crate::items::implementation_item::spec_members_of(head.items),
                },
                functions: crate::items::implementation_item::spec_functions_of(head.items),
            };
            List::Cons(Box::new(split), Box::new(spec_attach_impls(*tail)))
        },
    }
}

/// Turn parsed implementation blocks into attached ones, in order.
pub fn attach_impls(l: List<ItemImpl>) -> (r: List<ImplementationItem>)
    ensures
        r == spec_attach_impls(l),
    decreases l,
{
    match l {
        List::Nil => List::Nil,
        List::Cons(head, tail) => {
            let head2 = ImplementationItem::new(*head);
            let tail2 = attach_impls(*tail);
            List::Cons(Box::new(head2), Box::new(tail2))
        },
    }
}

/// What walking the attached implementation blocks does, in order.
#[verifier::opaque]
pub open spec fn walk_implementation_list_spec<C: Context>(
    c: C,
    l: List<ImplementationItem>,
) -> Option<(C, List<ImplementationItem>)>
    decreases l,
{
    match l {
        List::Nil => Some((c, List::Nil)),
        List::Cons(head, tail) => match crate::items::implementation_item::walk_implementation_spec(
            c,
            *head,
        ) {
            Option::None => None,
            Option::Some((c1, head2)) => match walk_implementation_list_spec(c1, *tail) {
                Option::None => None,
                Option::Some((c2, tail2)) => Some(
                    (c2, List::Cons(Box::new(head2), Box::new(tail2))),
                ),
            },
        },
    }
}

/// Walk every attached implementation block in order.
pub fn walk_implementation_list<C: Context>(l: List<ImplementationItem>, c: &mut C) -> (r: Result<
    List<ImplementationItem>,
    Error,
>)
    ensures
        match r {
            Result::Ok(l2) => walk_implementation_list_spec(*old(c), l) == Some((*final(c), l2)),
            Result::Err(_) => walk_implementation_list_spec(*old(c), l) is None,
        },
    decreases l,
{
    proof {
        reveal(walk_implementation_list_spec);
        reveal(crate::items::implementation_item::walk_implementation_spec);
    }
    match l {
        List::Nil => Result::Ok(List::Nil),
        List::Cons(head, tail) => {
            let head2 = (*head).walk(c)?;
            let tail2 = walk_implementation_list(*tail, c)?;
            Result::Ok(List::Cons(Box::new(head2), Box::new(tail2)))
        },
    }
}

/// What walking a struct declaration does: its name, generics, fields, then
/// each attached implementation block.
#[verifier::opaque]
pub open spec fn walk_struct_item_spec<C: Context>(c: C, s: StructItem) -> Option<(C, StructItem)> {
    let (c0, ident2) = walk_ident_spec(c, s.item.ident);
    match walk_generics_spec(c0, s.item.generics) {
        Option::None => None,
        Option::Some((c1, generics2)) => match walk_fields_spec(c1, s.item.fields) {
            Option::None => None,
            Option::Some((c2, fields2)) => match walk_implementation_list_spec(c2, s.impl_items) {
                Option::None => None,
                Option::Some((c3, impls2)) => Some(
                    (
                        c3,
                        StructItem {
                            item: ItemStruct {
                                ident: ident2,
                                generics: generics2,
                                fields: fields2,
                            },
                            impl_items: impls2,
                        },
                    ),
                ),
            },
        },
    }
}

impl StructItem {
    /// A struct declaration with its implementation blocks attached.
    pub fn new(item: ItemStruct, impl_items: List<ItemImpl>) -> (r: StructItem)
        ensures
            r.item == item,
            r.impl_items == spec_attach_impls(impl_items),
    {
        StructItem { item, impl_items: attach_impls(impl_items) }
    }

    /// The declaration's name, read live.
    pub fn ident(&self) -> (r: String)
        ensures
            r@ == self.item.ident@,
    {
        self.item.ident.clone()
    }

    /// Walk name, generics, fields, then attached implementation blocks.
    pub fn walk<C: Context>(self, c: &mut C) -> (r: Result<StructItem, Error>)
        ensures
            match r {
                Result::Ok(s2) => walk_struct_item_spec(*old(c), self) == Some((*final(c), s2)),
                Result::Err(_) => walk_struct_item_spec(*old(c), self) is None,
            },
    {
        proof {
            reveal(walk_struct_item_spec);
            reveal(walk_generics_spec);
            reveal(walk_fields_spec);
            reveal(walk_implementation_list_spec);
        }
        let ident2 = walk_ident(self.item.ident, c);
        let generics2 = GenericsWalker::walk(self.item.generics, c)?;
        let fields2 = FieldsWalker::walk(self.item.fields, c)?;
        let impls2 = walk_implementation_list(self.impl_items, c)?;
        Result::Ok(
            StructItem {
                item: ItemStruct { ident: ident2, generics: generics2, fields: fields2 },
                impl_items: impls2,
            },
        )
    }
}

} // verus!
