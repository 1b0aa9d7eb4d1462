//! An enum declaration together with its attached implementation blocks.

use crate::ast::{Generics, Variant};
use crate::error::Error;
use crate::items::implementation_item::{ImplementationItem, ItemImpl};
use crate::items::struct_item::{
    spec_attach_impls, attach_impls, walk_implementation_list, walk_implementation_list_spec,
};
use crate::list::List;
use crate::walkers::expr::ExprWalker;
use crate::walkers::expr::walk_expr_spec;
use crate::walkers::fields::{walk_fields_spec, FieldsWalker};
use crate::walkers::generics::{walk_generics_spec, GenericsWalker};
use crate::walkers::{walk_ident, walk_ident_spec, Context};
use vstd::prelude::*;

verus! {

/// An enum declaration: name, generics, variants.
#[derive(Debug, PartialEq, Eq)]
pub struct ItemEnum {
    pub ident: String,
    pub generics: Generics,
    pub variants: List<Variant>,
}

/// An enum declaration with its attached implementation blocks.
#[derive(Debug, PartialEq, Eq)]
pub struct EnumItem {
    pub item: ItemEnum,
    pub impl_items: List<ImplementationItem>,
}

/// What walking the variants does: each variant's name, fields, and
/// discriminant expression, in order.
#[verifier::opaque]
pub open spec fn walk_variant_list_spec<C: Context>(c: C, l: List<Variant>) -> Option<
    (C, List<Variant>),
>
    decreases l,
{
    match l {
        List::Nil => Some((c, List::Nil)),
        List::Cons(head, tail) => {
            let v = *head;
            let (c1, ident2) = walk_ident_spec(c, v.ident);
            match walk_fields_spec(c1, v.fields) {
                Option::None => None,
                Option::Some((c2, fields2)) => {
                    let step = match v.discriminant {
                        Option::Some(e) => match walk_expr_spec(c2, e) {
                            Option::None => None,
                            Option::Some((cx, e2)) => Some((cx, Some(e2))),
                        },
                        Option::None => Some((c2, None)),
                    };
                    match step {
                        Option::None => None,
                        Option::Some((c3, discriminant2)) => match walk_variant_list_spec(
                            c3,
                            *tail,
                        ) {
                            Option::None => None,
                            Option::Some((c4, tail2)) => Some(
                                (
                                    c4,
                                    List::Cons(
                                        Box::new(
                                            Variant {
                                                ident: ident2,
                                                fields: fields2,
                                                discriminant: discriminant2,
                                            },
                                        ),
                                        Box::new(tail2),
                                    ),
                                ),
                            ),
                        },
                    }
                },
            }
        },
    }
}

/// What walking an enum declaration does: its name, generics, variants, then
/// each attached implementation block.
#[verifier::opaque]
pub open spec fn walk_enum_item_spec<C: Context>(c: C, s: EnumItem) -> Option<(C, EnumItem)> {
    let (c0, ident2) = walk_ident_spec(c, s.item.ident);
    match walk_generics_spec(c0, s.item.generics) {
        Option::None => None,
        Option::Some((c1, generics2)) => match walk_variant_list_spec(c1, s.item.variants) {
            Option::None => None,
            Option::Some((c2, variants2)) => match walk_implementation_list_spec(
                c2,
                s.impl_items,
            ) {
                Option::None => None,
                Option::Some((c3, impls2)) => Some(
                    (
                        c3,
                        EnumItem {
                            item: ItemEnum {
                                ident: ident2,
                                generics: generics2,
                                variants: variants2,
                            },
                            impl_items: impls2,
                        },
                    ),
                ),
            },
        },
    }
}

impl EnumItem {
    /// An enum declaration with its implementation blocks attached.
    pub fn new(item: ItemEnum, impl_items: List<ItemImpl>) -> (r: EnumItem)
        ensures
            r.item == item,
            r.impl_items == spec_attach_impls(impl_items),
    {
        EnumItem { item, impl_items: attach_impls(impl_items) }
    }

    /// The declaration's name, read live.
    pub fn ident(&self) -> (r: String)
        ensures
            r@ == self.item.ident@,
    {
        self.item.ident.clone()
    }

    /// Walk name, generics, variants, then attached implementation blocks.
    pub fn walk<C: Context>(self, c: &mut C) -> (r: Result<EnumItem, Error>)
        ensures
            match r {
                Result::Ok(s2) => walk_enum_item_spec(*old(c), self) == Some((*final(c), s2)),
                Result::Err(_) => walk_enum_item_spec(*old(c), self) is None,
            },
    {
        proof {
            reveal(walk_enum_item_spec);
            reveal(walk_generics_spec);
            reveal(walk_variant_list_spec);
            reveal(walk_implementation_list_spec);
        }
        let ident2 = walk_ident(self.item.ident, c);
        let generics2 = GenericsWalker::walk(self.item.generics, c)?;
        let variants2 = walk_variant_list(self.item.variants, c)?;
        let impls2 = walk_implementation_list(self.impl_items, c)?;
        Result::Ok(
            EnumItem {
                item: ItemEnum { ident: ident2, generics: generics2, variants: variants2 },
                impl_items: impls2,
            },
        )
    }
}

/// Walk every variant in order.
pub fn walk_variant_list<C: Context>(l: List<Variant>, c: &mut C) -> (r: Result<
    List<Variant>,
    Error,
>)
    ensures
        match r {
            Result::Ok(l2) => walk_variant_list_spec(*old(c), l) == Some((*final(c), l2)),
            Result::Err(_) => walk_variant_list_spec(*old(c), l) is None,
        },
    decreases l,
{
    proof {
        reveal(walk_variant_list_spec);
        reveal(walk_fields_spec);
        reveal(walk_expr_spec);
    }
    match l {
        List::Nil => Result::Ok(List::Nil),
        List::Cons(head, tail) => {
            let v = *head;
            let ident2 = walk_ident(v.ident, c);
            let fields2 = FieldsWalker::walk(v.fields, c)?;
            let discriminant2 = match v.discriminant {
                Option::Some(e) => Some(ExprWalker::walk(e, c)?),
                Option::None => None,
            };
            let tail2 = walk_variant_list(*tail, c)?;
            Result::Ok(
                List::Cons(
                    Box::new(
                        Variant { ident: ident2, fields: fields2, discriminant: discriminant2 },
                    ),
                    Box::new(tail2),
                ),
            )
        },
    }
}

} // verus!
