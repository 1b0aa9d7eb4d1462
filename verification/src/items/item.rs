//! One top-level declaration: a struct, an enum, a function, or a
//! passthrough of any other kind.

use crate::error::Error;
use crate::items::enum_item::{walk_enum_item_spec, EnumItem};
use crate::items::fn_item::{fn_item_ident_spec, walk_fn_item_spec, FnItem};
use crate::items::other_item::{other_ident_spec, walk_other_item_spec, OtherItem};
use crate::items::struct_item::{walk_struct_item_spec, StructItem};
use crate::walkers::Context;
use vstd::prelude::*;

verus! {

/// A top-level declaration.
#[derive(Debug, PartialEq, Eq)]
pub enum Item {
    Struct(StructItem),
    Enum(EnumItem),
    Fn(FnItem),
    Other(OtherItem),
}

/// The identity of a declaration: its name, read live from its current name
/// field, when its kind defines one.
pub open spec fn item_ident_spec(it: Item) -> Option<Seq<char>> {
    match it {
        Item::Struct(s) => Some(s.item.ident@),
        Item::Enum(e) => Some(e.item.ident@),
        Item::Fn(f) => Some(fn_item_ident_spec(f)),
        Item::Other(o) => other_ident_spec(o),
    }
}

/// What walking one declaration does, dispatching on its kind.
#[verifier::opaque]
pub open spec fn walk_item_spec<C: Context>(c: C, it: Item) -> Option<(C, Item)> {
    match it {
        Item::Struct(s) => match walk_struct_item_spec(c, s) {
            Option::None => None,
            Option::Some((c1, s2)) => Some((c1, Item::Struct(s2))),
        },
        Item::Enum(e) => match walk_enum_item_spec(c, e) {
            Option::None => None,
            Option::Some((c1, e2)) => Some((c1, Item::Enum(e2))),
        },
        Item::Fn(f) => match walk_fn_item_spec(c, f) {
            Option::None => None,
            Option::Some((c1, f2)) => Some((c1, Item::Fn(f2))),
        },
        Item::Other(o) => match walk_other_item_spec(c, o) {
            Option::None => None,
            Option::Some((c1, o2)) => Some((c1, Item::Other(o2))),
        },
    }
}

impl Item {
    /// The declaration's name, when its kind defines one.
    pub fn ident(&self) -> (r: Result<String, Error>)
        ensures
            match r {
                Result::Ok(name) => item_ident_spec(*self) == Some(name@),
                Result::Err(e) => item_ident_spec(*self) is None && e == Error::NoIdentity,
            },
    {
        match self {
            Item::Struct(s) => Result::Ok(s.ident()),
            Item::Enum(e) => Result::Ok(e.ident()),
            Item::Fn(f) => Result::Ok(f.ident()),
            Item::Other(o) => o.ident(),
        }
    }

    /// The struct declaration held, if any.
    pub fn as_struct_ref(&self) -> (r: Option<&StructItem>)
        ensures
            match r {
                Option::Some(s) => *self == Item::Struct(*s),
                Option::None => !(*self is Struct),
            },
    {
        match self {
            Item::Struct(s) => Some(s),
            _ => None,
        }
    }

    /// Walk the declaration with the given context.
    pub fn walk<C: Context>(self, c: &mut C) -> (r: Result<Item, Error>)
        ensures
            match r {
                Result::Ok(it2) => walk_item_spec(*old(c), self) == Some((*final(c), it2)),
                Result::Err(_) => walk_item_spec(*old(c), self) is None,
            },
    {
        proof {
            reveal(walk_item_spec);
            reveal(walk_struct_item_spec);
            reveal(walk_enum_item_spec);
            reveal(walk_fn_item_spec);
            reveal(walk_other_item_spec);
        }
        match self {
            Item::Struct(s) => {
                let s2 = s.walk(c)?;
                Result::Ok(Item::Struct(s2))
            },
            Item::Enum(e) => {
                let e2 = e.walk(c)?;
                Result::Ok(Item::Enum(e2))
            },
            Item::Fn(f) => {
                let f2 = f.walk(c)?;
                Result::Ok(Item::Fn(f2))
            },
            Item::Other(o) => {
                let o2 = o.walk(c)?;
                Result::Ok(Item::Other(o2))
            },
        }
    }
}

} // verus!
