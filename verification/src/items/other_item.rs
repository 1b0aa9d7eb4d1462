//! A top-level declaration of any other kind: constants, statics, traits,
//! trait aliases, type aliases, unions, macro definitions, functions pushed
//! through the passthrough, and opaque token runs.

use crate::ast::{
    Expr, Field, Generics, MacroInvocation, Signature, Stmt, Type, TypeParamBound,
};
use crate::error::Error;
use crate::items::fn_item::FnDef;
use crate::list::List;
use crate::walkers::expr::ExprWalker;
use crate::walkers::expr::walk_expr_spec;
use crate::walkers::fields::{walk_field_list, walk_field_list_spec};
use crate::walkers::generics::{walk_generics_spec, GenericsWalker};
use crate::walkers::macro_::{walk_macro_spec, MacroWalker};
use crate::walkers::signature::{walk_signature_spec, SignatureWalker};
use crate::walkers::statement::{walk_stmt_list, walk_stmt_list_spec};
use crate::walkers::type_::{walk_type_spec, TypeWalker};
use crate::walkers::type_param_bound::{walk_tpb_list, walk_tpb_list_spec};
use crate::walkers::{
    walk_ident, walk_ident_spec, walk_opt_ident, walk_opt_ident_spec, Context,
};
use vstd::prelude::*;

verus! {

/// One member of a trait declaration.
#[derive(Debug, PartialEq, Eq)]
pub enum TraitMember {
    /// An associated constant: name, type, optional default, generics.
    Const(String, Generics, Type, Option<Expr>),
    /// A method: signature and optional default body.
    Fn(Signature, Option<List<Stmt>>),
    /// An associated type: name, generics, bounds, optional default.
    TypeAlias(String, Generics, List<TypeParamBound>, Option<Type>),
    /// A macro invocation among the members.
    Macro(MacroInvocation),
    /// An opaque member carried through unchanged.
    Verbatim(String),
}

/// A top-level declaration of a kind with no dedicated model.
#[derive(Debug, PartialEq, Eq)]
pub enum OtherNode {
    /// `const NAME: ty = value;` with its generics.
    Const(String, Generics, Box<Type>, Box<Expr>),
    /// A macro definition or top-level invocation, optionally named.
    MacroDef(Option<String>, MacroInvocation),
    /// `static NAME: ty = value;`.
    Static(String, Box<Type>, Box<Expr>),
    /// A trait: name, generics, supertraits, whether a restriction clause is
    /// present, and members.
    Trait(String, Generics, List<TypeParamBound>, bool, List<TraitMember>),
    /// A trait alias: name, generics, bounds.
    TraitAlias(String, Generics, List<TypeParamBound>),
    /// A type alias: name, generics, type.
    TypeAlias(String, Generics, Box<Type>),
    /// A union: name, generics, named fields.
    Union(String, Generics, List<Field>),
    /// A freestanding function pushed through the passthrough.
    Fn(FnDef),
    /// An opaque token run carried through unchanged.
    Verbatim(String),
}

/// A passthrough declaration.
#[derive(Debug, PartialEq, Eq)]
pub struct OtherItem {
    pub item: OtherNode,
}

/// The identity of a passthrough declaration, when its kind defines one.
pub open spec fn other_ident_spec(o: OtherItem) -> Option<Seq<char>> {
    match o.item {
        OtherNode::Const(name, _, _, _) => Some(name@),
        OtherNode::MacroDef(name, _) => match name {
            Option::Some(n) => Some(n@),
            Option::None => None,
        },
        OtherNode::Static(name, _, _) => Some(name@),
        OtherNode::Trait(name, _, _, _, _) => Some(name@),
        OtherNode::TraitAlias(name, _, _) => Some(name@),
        OtherNode::TypeAlias(name, _, _) => Some(name@),
        OtherNode::Union(name, _, _) => Some(name@),
        OtherNode::Fn(_) => None,
        OtherNode::Verbatim(_) => None,
    }
}

/// What walking the members of a trait does, in order.
#[verifier::opaque]
pub open spec fn walk_trait_member_list_spec<C: Context>(c: C, l: List<TraitMember>) -> Option<
    (C, List<TraitMember>),
>
    decreases l,
{
    match l {
        List::Nil => Some((c, List::Nil)),
        List::Cons(head, tail) => {
            let step = match *head {
                TraitMember::Const(name, generics, ty, default) => {
                    let (c1, name2) = walk_ident_spec(c, name);
                    match walk_type_spec(c1, ty) {
                        Option::None => None,
                        Option::Some((c2, ty2)) => {
                            let inner = match default {
                                Option::Some(e) => match walk_expr_spec(c2, e) {
                                    Option::None => None,
                                    Option::Some((cx, e2)) => Some((cx, Some(e2))),
                                },
                                Option::None => Some((c2, None)),
                            };
                            match inner {
                                Option::None => None,
                                Option::Some((c3, default2)) => match walk_generics_spec(
                                    c3,
                                    generics,
                                ) {
                                    Option::None => None,
                                    Option::Some((c4, generics2)) => Some(
                                        (
                                            c4,
                                            TraitMember::Const(name2, generics2, ty2, default2),
                                        ),
                                    ),
                                },
                            }
                        },
                    }
                },
                TraitMember::Fn(sig, default) => {
                    let inner = match default {
                        Option::Some(body) => match walk_stmt_list_spec(c, body) {
                            Option::None => None,
                            Option::Some((cx, body2)) => Some((cx, Some(body2))),
                        },
                        Option::None => Some((c, None)),
                    };
                    match inner {
                        Option::None => None,
                        Option::Some((c1, default2)) => match walk_signature_spec(c1, sig) {
                            Option::None => None,
                            Option::Some((c2, sig2)) => Some(
                                (c2, TraitMember::Fn(sig2, default2)),
                            ),
                        },
                    }
                },
                TraitMember::TypeAlias(name, generics, bounds, default) => {
                    let (c1, name2) = walk_ident_spec(c, name);
                    let inner = match default {
                        Option::Some(t) => match walk_type_spec(c1, t) {
                            Option::None => None,
                            Option::Some((cx, t2)) => Some((cx, Some(t2))),
                        },
                        Option::None => Some((c1, None)),
                    };
                    match inner {
                        Option::None => None,
                        Option::Some((c2, default2)) => match walk_generics_spec(c2, generics) {
                            Option::None => None,
                            Option::Some((c3, generics2)) => match walk_tpb_list_spec(
                                c3,
                                bounds,
                            ) {
                                Option::None => None,
                                Option::Some((c4, bounds2)) => Some(
                                    (
                                        c4,
                                        TraitMember::TypeAlias(
                                            name2,
                                            generics2,
                                            bounds2,
                                            default2,
                                        ),
                                    ),
                                ),
                            },
                        },
                    }
                },
                TraitMember::Macro(mac) => match walk_macro_spec(c, mac) {
                    Option::None => None,
                    Option::Some((c1, mac2)) => Some((c1, TraitMember::Macro(mac2))),
                },
                TraitMember::Verbatim(tokens) => Some((c, TraitMember::Verbatim(tokens))),
            };
            match step {
                Option::None => None,
                Option::Some((c1, head2)) => match walk_trait_member_list_spec(c1, *tail) {
                    Option::None => None,
                    Option::Some((c2, tail2)) => Some(
                        (c2, List::Cons(Box::new(head2), Box::new(tail2))),
                    ),
                },
            }
        },
    }
}

/// What walking a passthrough declaration does.  A trait carrying a
/// restriction clause, a function pushed through the passthrough, and an
/// opaque token run are fail-stop: the walk yields no result there.
#[verifier::opaque]
pub open spec fn walk_other_item_spec<C: Context>(c: C, o: OtherItem) -> Option<(C, OtherItem)> {
    match o.item {
        OtherNode::Const(name, generics, ty, value) => {
            let (c1, name2) = walk_ident_spec(c, name);
            match walk_type_spec(c1, *ty) {
                Option::None => None,
                Option::Some((c2, ty2)) => match walk_expr_spec(c2, *value) {
                    Option::None => None,
                    Option::Some((c3, value2)) => match walk_generics_spec(c3, generics) {
                        Option::None => None,
                        Option::Some((c4, generics2)) => Some(
                            (
                                c4,
                                OtherItem {
                                    item: OtherNode::Const(
                                        name2,
                                        generics2,
                                        Box::new(ty2),
                                        Box::new(value2),
                                    ),
                                },
                            ),
                        ),
                    },
                },
            }
        },
        OtherNode::MacroDef(name, mac) => {
            let (c1, name2) = walk_opt_ident_spec(c, name);
            match walk_macro_spec(c1, mac) {
                Option::None => None,
                Option::Some((c2, mac2)) => Some(
                    (c2, OtherItem { item: OtherNode::MacroDef(name2, mac2) }),
                ),
            }
        },
        OtherNode::Static(name, ty, value) => {
            let (c1, name2) = walk_ident_spec(c, name);
            match walk_expr_spec(c1, *value) {
                Option::None => None,
                Option::Some((c2, value2)) => match walk_type_spec(c2, *ty) {
                    Option::None => None,
                    Option::Some((c3, ty2)) => Some(
                        (
                            c3,
                            OtherItem {
                                item: OtherNode::Static(name2, Box::new(ty2), Box::new(value2)),
                            },
                        ),
                    ),
                },
            }
        },
        OtherNode::Trait(name, generics, supertraits, restriction, members) => {
            if restriction {
                None
            } else {
                let (c1, name2) = walk_ident_spec(c, name);
                match walk_generics_spec(c1, generics) {
                    Option::None => None,
                    Option::Some((c2, generics2)) => match walk_tpb_list_spec(c2, supertraits) {
                        Option::None => None,
                        Option::Some((c3, supertraits2)) => match walk_trait_member_list_spec(
                            c3,
                            members,
                        ) {
                            Option::None => None,
                            Option::Some((c4, members2)) => Some(
                                (
                                    c4,
                                    OtherItem {
                                        item: OtherNode::Trait(
                                            name2,
                                            generics2,
                                            supertraits2,
                                            false,
                                            members2,
                                        ),
                                    },
                                ),
                            ),
                        },
                    },
                }
            }
        },
        OtherNode::TraitAlias(name, generics, bounds) => {
            let (c1, name2) = walk_ident_spec(c, name);
            match walk_generics_spec(c1, generics) {
                Option::None => None,
                Option::Some((c2, generics2)) => match walk_tpb_list_spec(c2, bounds) {
                    Option::None => None,
                    Option::Some((c3, bounds2)) => Some(
                        (c3, OtherItem { item: OtherNode::TraitAlias(name2, generics2, bounds2) }),
                    ),
                },
            }
        },
        OtherNode::TypeAlias(name, generics, ty) => {
            let (c1, name2) = walk_ident_spec(c, name);
            match walk_generics_spec(c1, generics) {
                Option::None => None,
                Option::Some((c2, generics2)) => match walk_type_spec(c2, *ty) {
                    Option::None => None,
                    Option::Some((c3, ty2)) => Some(
                        (
                            c3,
                            OtherItem {
                                item: OtherNode::TypeAlias(name2, generics2, Box::new(ty2)),
                            },
                        ),
                    ),
                },
            }
        },
        OtherNode::Union(name, generics, fields) => {
            let (c1, name2) = walk_ident_spec(c, name);
            match walk_generics_spec(c1, generics) {
                Option::None => None,
                Option::Some((c2, generics2)) => match walk_field_list_spec(c2, fields) {
                    Option::None => None,
                    Option::Some((c3, fields2)) => Some(
                        (c3, OtherItem { item: OtherNode::Union(name2, generics2, fields2) }),
                    ),
                },
            }
        },
        OtherNode::Fn(_) => None,
        OtherNode::Verbatim(_) => None,
    }
}

impl OtherItem {
    /// Wrap a passthrough declaration.
    pub fn new(item: OtherNode) -> (r: OtherItem)
        ensures
            r.item == item,
    {
        OtherItem { item }
    }

    /// Whether the passthrough holds a freestanding function.
    pub fn is_fn(&self) -> (r: bool)
        ensures
            r == (self.item is Fn),
    {
        match self.item {
            OtherNode::Fn(_) => true,
            _ => false,
        }
    }

    /// The declaration's name; a kind without one has no identity.
    pub fn ident(&self) -> (r: Result<String, Error>)
        ensures
            match r {
                Result::Ok(name) => other_ident_spec(*self) == Some(name@),
                Result::Err(e) => other_ident_spec(*self) is None && e == Error::NoIdentity,
            },
    {
        match &self.item {
            OtherNode::Const(name, _, _, _) => Result::Ok(name.clone()),
            OtherNode::MacroDef(name, _) => match name {
                Option::Some(n) => Result::Ok(n.clone()),
                Option::None => Result::Err(Error::NoIdentity),
            },
            OtherNode::Static(name, _, _) => Result::Ok(name.clone()),
            OtherNode::Trait(name, _, _, _, _) => Result::Ok(name.clone()),
            OtherNode::TraitAlias(name, _, _) => Result::Ok(name.clone()),
            OtherNode::TypeAlias(name, _, _) => Result::Ok(name.clone()),
            OtherNode::Union(name, _, _) => Result::Ok(name.clone()),
            OtherNode::Fn(_) => Result::Err(Error::NoIdentity),
            OtherNode::Verbatim(_) => Result::Err(Error::NoIdentity),
        }
    }

    /// Walk every owned child of the declaration, per kind.
    pub fn walk<C: Context>(self, c: &mut C) -> (r: Result<OtherItem, Error>)
        ensures
            match r {
                Result::Ok(o2) => walk_other_item_spec(*old(c), self) == Some((*final(c), o2)),
                Result::Err(_) => walk_other_item_spec(*old(c), self) is None,
            },
    {
        proof {
            reveal(walk_other_item_spec);
            reveal(walk_type_spec);
            reveal(walk_expr_spec);
            reveal(walk_generics_spec);
            reveal(walk_macro_spec);
            reveal(walk_tpb_list_spec);
            reveal(walk_trait_member_list_spec);
            reveal(walk_field_list_spec);
        }
        match self.item {
            OtherNode::Const(name, generics, ty, value) => {
                let name2 = walk_ident(name, c);
                let ty2 = TypeWalker::walk(*ty, c)?;
                let value2 = ExprWalker::walk(*value, c)?;
                let generics2 = GenericsWalker::walk(generics, c)?;
                Result::Ok(
                    OtherItem {
                        item: OtherNode::Const(name2, generics2, Box::new(ty2), Box::new(value2)),
                    },
                )
            },
            OtherNode::MacroDef(name, mac) => {
                let name2 = walk_opt_ident(name, c);
                let mac2 = MacroWalker::walk(mac, c)?;
                Result::Ok(OtherItem { item: OtherNode::MacroDef(name2, mac2) })
            },
            OtherNode::Static(name, ty, value) => {
                let name2 = walk_ident(name, c);
                let value2 = ExprWalker::walk(*value, c)?;
                let ty2 = TypeWalker::walk(*ty, c)?;
                Result::Ok(
                    OtherItem { item: OtherNode::Static(name2, Box::new(ty2), Box::new(value2)) },
                )
            },
            OtherNode::Trait(name, generics, supertraits, restriction, members) => {
                if restriction {
                    return Result::Err(Error::Unsupported);
                }
                let name2 = walk_ident(name, c);
                let generics2 = GenericsWalker::walk(generics, c)?;
                let supertraits2 = walk_tpb_list(supertraits, c)?;
                let members2 = walk_trait_member_list(members, c)?;
                Result::Ok(
                    OtherItem {
                        item: OtherNode::Trait(name2, generics2, supertraits2, false, members2),
                    },
                )
            },
            OtherNode::TraitAlias(name, generics, bounds) => {
                let name2 = walk_ident(name, c);
                let generics2 = GenericsWalker::walk(generics, c)?;
                let bounds2 = walk_tpb_list(bounds, c)?;
                Result::Ok(OtherItem { item: OtherNode::TraitAlias(name2, generics2, bounds2) })
            },
            OtherNode::TypeAlias(name, generics, ty) => {
                let name2 = walk_ident(name, c);
                let generics2 = GenericsWalker::walk(generics, c)?;
                let ty2 = TypeWalker::walk(*ty, c)?;
                Result::Ok(
                    OtherItem { item: OtherNode::TypeAlias(name2, generics2, Box::new(ty2)) },
                )
            },
            OtherNode::Union(name, generics, fields) => {
                let name2 = walk_ident(name, c);
                let generics2 = GenericsWalker::walk(generics, c)?;
                let fields2 = walk_field_list(fields, c)?;
                Result::Ok(OtherItem { item: OtherNode::Union(name2, generics2, fields2) })
            },
            OtherNode::Fn(_) => Result::Err(Error::Unsupported),
            OtherNode::Verbatim(_) => Result::Err(Error::Unsupported),
        }
    }
}

/// Walk every trait member in order.
pub fn walk_trait_member_list<C: Context>(l: List<TraitMember>, c: &mut C) -> (r: Result<
    List<TraitMember>,
    Error,
>)
    ensures
        match r {
            Result::Ok(l2) => walk_trait_member_list_spec(*old(c), l) == Some((*final(c), l2)),
            Result::Err(_) => walk_trait_member_list_spec(*old(c), l) is None,
        },
    decreases l,
{
    proof {
        reveal(walk_trait_member_list_spec);
        reveal(walk_type_spec);
        reveal(walk_expr_spec);
        reveal(walk_generics_spec);
        reveal(walk_stmt_list_spec);
        reveal(walk_signature_spec);
        reveal(walk_tpb_list_spec);
        reveal(walk_macro_spec);
    }
    match l {
        List::Nil => Result::Ok(List::Nil),
        List::Cons(head, tail) => {
            let head2 = match *head {
                TraitMember::Const(name, generics, ty, default) => {
                    let name2 = walk_ident(name, c);
                    let ty2 = TypeWalker::walk(ty, c)?;
                    let default2 = match default {
                        Option::Some(e) => Some(ExprWalker::walk(e, c)?),
                        Option::None => None,
                    };
                    let generics2 = GenericsWalker::walk(generics, c)?;
                    TraitMember::Const(name2, generics2, ty2, default2)
                },
                TraitMember::Fn(sig, default) => {
                    let default2 = match default {
                        Option::Some(body) => Some(walk_stmt_list(body, c)?),
                        Option::None => None,
                    };
                    let sig2 = SignatureWalker::walk(sig, c)?;
                    TraitMember::Fn(sig2, default2)
                },
                TraitMember::TypeAlias(name, generics, bounds, default) => {
                    let name2 = walk_ident(name, c);
                    let default2 = match default {
                        Option::Some(t) => Some(TypeWalker::walk(t, c)?),
                        Option::None => None,
                    };
                    let generics2 = GenericsWalker::walk(generics, c)?;
                    let bounds2 = walk_tpb_list(bounds, c)?;
                    TraitMember::TypeAlias(name2, generics2, bounds2, default2)
                },
                TraitMember::Macro(mac) => {
                    let mac2 = MacroWalker::walk(mac, c)?;
                    TraitMember::Macro(mac2)
                },
                TraitMember::Verbatim(tokens) => TraitMember::Verbatim(tokens),
            };
            let tail2 = walk_trait_member_list(*tail, c)?;
            Result::Ok(List::Cons(Box::new(head2), Box::new(tail2)))
        },
    }
}

} // verus!
