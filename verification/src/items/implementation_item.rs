//! An implementation block: its generics, optional trait path, subject type,
//! non-function members, and member functions.

use crate::ast::{Expr, Generics, MacroInvocation, Type};
use crate::error::Error;
use crate::items::fn_item::{
    walk_fn_item_list, walk_fn_item_list_spec, FnDef, FnItem, FnType,
};
use crate::list::List;
use crate::utils::path::Path;
use crate::walkers::expr::ExprWalker;
use crate::walkers::expr::walk_expr_spec;
use crate::walkers::generics::{walk_generics_spec, GenericsWalker};
use crate::walkers::macro_::{walk_macro_spec, MacroWalker};
use crate::walkers::path::{walk_path_spec, PathWalker};
use crate::walkers::type_::{walk_type_spec, TypeWalker};
use crate::walkers::{walk_ident, walk_ident_spec, Context};
use vstd::prelude::*;

verus! {

/// One member of an implementation block.
#[derive(Debug, PartialEq, Eq)]
pub enum ImplMember {
    /// An associated constant: name, generics, type, value.
    Const(String, Generics, Type, Expr),
    /// An associated type alias: name, generics, type.
    TypeAlias(String, Generics, Type),
    /// A macro invocation among the members.
    Macro(MacroInvocation),
    /// A member function.
    Fn(FnDef),
}

/// An implementation block as parsed: generics, optional trait path, subject
/// type, and members of any kind.
#[derive(Debug, PartialEq, Eq)]
pub struct ItemImpl {
    pub generics: Generics,
    pub trait_: Option<Path>,
    pub self_ty: Box<Type>,
    pub items: List<ImplMember>,
}

/// An implementation block with its member functions split out.
#[derive(Debug, PartialEq, Eq)]
pub struct ImplementationItem {
    pub item: ItemImpl,
    pub functions: List<FnItem>,
}

/// The member functions of an implementation, in order.
pub open spec fn spec_functions_of(l: List<ImplMember>) -> List<FnItem>
    decreases l,
{
    match l {
        List::Nil => List::Nil,
        List::Cons(head, tail) => match *head {
            ImplMember::Fn(def) => List::Cons(
                Box::new(FnItem { item: FnType::Implementation(def) }),
                Box::new(spec_functions_of(*tail)),
            ),
            _ => spec_functions_of(*tail),
        },
    }
}

/// The members of an implementation that are not functions, in order.
pub open spec fn spec_members_of(l: List<ImplMember>) -> List<ImplMember>
    decreases l,
{
    match l {
        List::Nil => List::Nil,
        List::Cons(head, tail) => match *head {
            ImplMember::Fn(_) => spec_members_of(*tail),
            other => List::Cons(Box::new(other), Box::new(spec_members_of(*tail))),
        },
    }
}

/// What walking the non-function members does, in order.
#[verifier::opaque]
pub open spec fn walk_impl_member_list_spec<C: Context>(c: C, l: List<ImplMember>) -> Option<
    (C, List<ImplMember>),
>
    decreases l,
{
    match l {
        List::Nil => Some((c, List::Nil)),
        List::Cons(head, tail) => {
            let step = match *head {
                ImplMember::Const(name, generics, ty, value) => {
                    let (c1, name2) = walk_ident_spec(c, name);
                    match walk_generics_spec(c1, generics) {
                        Option::None => None,
                        Option::Some((c2, generics2)) => match walk_type_spec(c2, ty) {
                            Option::None => None,
                            Option::Some((c3, ty2)) => match walk_expr_spec(c3, value) {
                                Option::None => None,
                                Option::Some((c4, value2)) => Some(
                                    (c4, ImplMember::Const(name2, generics2, ty2, value2)),
                                ),
                            },
                        },
                    }
                },
                ImplMember::TypeAlias(name, generics, ty) => {
                    let (c1, name2) = walk_ident_spec(c, name);
                    match walk_generics_spec(c1, generics) {
                        Option::None => None,
                        Option::Some((c2, generics2)) => match walk_type_spec(c2, ty) {
                            Option::None => None,
                            Option::Some((c3, ty2)) => Some(
                                (c3, ImplMember::TypeAlias(name2, generics2, ty2)),
                            ),
                        },
                    }
                },
                ImplMember::Macro(mac) => match walk_macro_spec(c, mac) {
                    Option::None => None,
                    Option::Some((c1, mac2)) => Some((c1, ImplMember::Macro(mac2))),
                },
                ImplMember::Fn(def) => Some((c, ImplMember::Fn(def))),
            };
            match step {
                Option::None => None,
                Option::Some((c1, head2)) => match walk_impl_member_list_spec(c1, *tail) {
                    Option::None => None,
                    Option::Some((c2, tail2)) => Some(
                        (c2, List::Cons(Box::new(head2), Box::new(tail2))),
                    ),
                },
            }
        },
    }
}

/// What walking an implementation block does: generics, the trait path when
/// present, the subject type, the non-function members, then the member
/// functions.
#[verifier::opaque]
pub open spec fn walk_implementation_spec<C: Context>(c: C, i: ImplementationItem) -> Option<
    (C, ImplementationItem),
> {
    match walk_generics_spec(c, i.item.generics) {
        Option::None => None,
        Option::Some((c1, generics2)) => {
            let step = match i.item.trait_ {
                Option::Some(path) => match walk_path_spec(c1, path) {
                    Option::None => None,
                    Option::Some((cx, path2)) => Some((cx, Some(path2))),
                },
                Option::None => Some((c1, None)),
            };
            match step {
                Option::None => None,
                Option::Some((c2, trait2)) => match walk_type_spec(c2, *i.item.self_ty) {
                    Option::None => None,
                    Option::Some((c3, self_ty2)) => match walk_impl_member_list_spec(
                        c3,
                        i.item.items,
                    ) {
                        Option::None => None,
                        Option::Some((c4, items2)) => match walk_fn_item_list_spec(
                            c4,
                            i.functions,
                        ) {
                            Option::None => None,
                            Option::Some((c5, functions2)) => Some(
                                (
                                    c5,
                                    ImplementationItem {
                                        item: ItemImpl {
                                            generics: generics2,
                                            trait_: trait2,
                                            self_ty: Box::new(self_ty2),
                                            items: items2,
                                        },
                                        functions: functions2,
                                    },
                                ),
                            ),
                        },
                    },
                },
            }
        },
    }
}

/// The identity of an implementation block: the last segment name of its
/// subject type's path, when the subject is a plain path type.
pub open spec fn implementation_ident_spec(i: ImplementationItem) -> Option<Seq<char>> {
    match *i.item.self_ty {
        Type::Path(_, p) => if p.segments.seq().len() > 0 {
            Some(p.segments.seq().last().ident@)
        } else {
            None
        },
        _ => None,
    }
}

/// The leading segment name of the subject type's path, used to attach the
/// block to its owning declaration.
pub open spec fn implementation_head_ident_spec(i: ImplementationItem) -> Option<Seq<char>> {
    item_impl_head_spec(i.item)
}

/// The leading segment name of a parsed block's subject type.
pub open spec fn item_impl_head_spec(item: ItemImpl) -> Option<Seq<char>> {
    match *item.self_ty {
        Type::Path(_, p) => if p.segments.seq().len() > 0 {
            Some(p.segments.seq()[0].ident@)
        } else {
            None
        },
        _ => None,
    }
}

/// The attached form of a parsed block: its member functions split out.
pub open spec fn spec_attached(item: ItemImpl) -> ImplementationItem {
    ImplementationItem {
        item: ItemImpl {
            generics: item.generics,
            trait_: item.trait_,
            self_ty: item.self_ty,
            items: spec_members_of(item.items),
        },
        functions: spec_functions_of(item.items),
    }
}

impl ImplementationItem {
    /// Split the member functions out of a parsed implementation block.
    pub fn new(item: ItemImpl) -> (r: ImplementationItem)
        ensures
            r == spec_attached(item),
    {
        let (members, functions) = Self::split_members(item.items);
        ImplementationItem {
            item: ItemImpl {
                generics: item.generics,
                trait_: item.trait_,
                self_ty: item.self_ty,
                items: members,
            },
            functions,
        }
    }

    /// Separate function members from the others, keeping both orders.
    fn split_members(l: List<ImplMember>) -> (r: (List<ImplMember>, List<FnItem>))
        ensures
            r.0 == spec_members_of(l),
            r.1 == spec_functions_of(l),
        decreases l,
    {
        match l {
            List::Nil => (List::Nil, List::Nil),
            List::Cons(head, tail) => {
                let (members, functions) = Self::split_members(*tail);
                match *head {
                    ImplMember::Fn(def) => (
                        members,
                        List::Cons(
                            Box::new(FnItem { item: FnType::Implementation(def) }),
                            Box::new(functions),
                        ),
                    ),
                    other => (List::Cons(Box::new(other), Box::new(members)), functions),
                }
            },
        }
    }

    /// The identity of the block: the last segment name of its subject
    /// type's path.  A subject that is not a plain path type has none.
    pub fn ident(&self) -> (r: Result<String, Error>)
        ensures
            match r {
                Result::Ok(name) => implementation_ident_spec(*self) == Some(name@),
                Result::Err(e) => implementation_ident_spec(*self) is None && e
                    == Error::NoIdentity,
            },
    {
        match &*self.item.self_ty {
            Type::Path(_, p) => match p.last() {
                Option::Some(seg) => Result::Ok(seg.ident.clone()),
                Option::None => Result::Err(Error::NoIdentity),
            },
            _ => Result::Err(Error::NoIdentity),
        }
    }

    /// Walk generics, trait path, subject type, members, then functions.
    pub fn walk<C: Context>(self, c: &mut C) -> (r: Result<ImplementationItem, Error>)
        ensures
            match r {
                Result::Ok(i2) => walk_implementation_spec(*old(c), self) == Some(
                    (*final(c), i2),
                ),
                Result::Err(_) => walk_implementation_spec(*old(c), self) is None,
            },
    {
        proof {
            reveal(walk_implementation_spec);
            reveal(walk_generics_spec);
            reveal(walk_path_spec);
            reveal(walk_type_spec);
            reveal(walk_impl_member_list_spec);
            reveal(walk_fn_item_list_spec);
        }
        let generics2 = GenericsWalker::walk(self.item.generics, c)?;
        let trait2 = match self.item.trait_ {
            Option::Some(path) => Some(PathWalker::walk(path, c)?),
            Option::None => None,
        };
        let self_ty2 = TypeWalker::walk(*self.item.self_ty, c)?;
        let items2 = walk_impl_member_list(self.item.items, c)?;
        let functions2 = walk_fn_item_list(self.functions, c)?;
        Result::Ok(
            ImplementationItem {
                item: ItemImpl {
                    generics: generics2,
                    trait_: trait2,
                    self_ty: Box::new(self_ty2),
                    items: items2,
                },
                functions: functions2,
            },
        )
    }
}

/// Walk the non-function members of an implementation in order.
pub fn walk_impl_member_list<C: Context>(l: List<ImplMember>, c: &mut C) -> (r: Result<
    List<ImplMember>,
    Error,
>)
    ensures
        match r {
            Result::Ok(l2) => walk_impl_member_list_spec(*old(c), l) == Some((*final(c), l2)),
            Result::Err(_) => walk_impl_member_list_spec(*old(c), l) is None,
        },
    decreases l,
{
    proof {
        reveal(walk_impl_member_list_spec);
        reveal(walk_generics_spec);
        reveal(walk_type_spec);
        reveal(walk_expr_spec);
        reveal(walk_macro_spec);
    }
    match l {
        List::Nil => Result::Ok(List::Nil),
        List::Cons(head, tail) => {
            let head2 = match *head {
                ImplMember::Const(name, generics, ty, value) => {
                    let name2 = walk_ident(name, c);
                    let generics2 = GenericsWalker::walk(generics, c)?;
                    let ty2 = TypeWalker::walk(ty, c)?;
                    let value2 = ExprWalker::walk(value, c)?;
                    ImplMember::Const(name2, generics2, ty2, value2)
                },
                ImplMember::TypeAlias(name, generics, ty) => {
                    let name2 = walk_ident(name, c);
                    let generics2 = GenericsWalker::walk(generics, c)?;
                    let ty2 = TypeWalker::walk(ty, c)?;
                    ImplMember::TypeAlias(name2, generics2, ty2)
                },
                ImplMember::Macro(mac) => {
                    let mac2 = MacroWalker::walk(mac, c)?;
                    ImplMember::Macro(mac2)
                },
                ImplMember::Fn(def) => ImplMember::Fn(def),
            };
            let tail2 = walk_impl_member_list(*tail, c)?;
            Result::Ok(List::Cons(Box::new(head2), Box::new(tail2)))
        },
    }
}

} // verus!
