//! Walks one generic parameter: lifetime bounds and identifiers, a type
//! parameter's default, identifier and bounds, or a const parameter's type.

use crate::ast::GenericParam;
use crate::error::Error;
use crate::list::List;
use crate::walkers::type_::{walk_opt_type, walk_opt_type_spec, TypeWalker};
use crate::walkers::type_param_bound::{walk_tpb_list, walk_tpb_list_spec};
use crate::walkers::{
    walk_ident, walk_ident_list, walk_ident_list_spec, walk_ident_spec, Context,
};
use vstd::prelude::*;

verus! {

/// What walking one generic parameter does, in the fixed order below.
#[verifier::opaque]
pub open spec fn walk_generic_param_spec<C: Context>(c: C, p: GenericParam) -> Option<
    (C, GenericParam),
>
    decreases p,
{
    match p {
        GenericParam::Lifetime(ident, bounds) => {
            let (c1, bounds2) = walk_ident_list_spec(c, bounds);
            let (c2, ident2) = walk_ident_spec(c1, ident);
            Some((c2, GenericParam::Lifetime(ident2, bounds2)))
        },
        GenericParam::Type(ident, bounds, default) => match walk_opt_type_spec(c, default) {
            Option::None => None,
            Option::Some((c1, default2)) => {
                let (c2, ident2) = walk_ident_spec(c1, ident);
                match walk_tpb_list_spec(c2, bounds) {
                    Option::None => None,
                    Option::Some((c3, bounds2)) => Some(
                        (c3, GenericParam::Type(ident2, bounds2, default2)),
                    ),
                }
            },
        },
        GenericParam::Const(ident, ty) => match crate::walkers::type_::walk_type_spec(c, *ty) {
            Option::None => None,
            Option::Some((c1, ty2)) => Some((c1, GenericParam::Const(ident, Box::new(ty2)))),
        },
    }
}

/// Walks every generic parameter of a list in order.
#[verifier::opaque]
pub open spec fn walk_generic_param_list_spec<C: Context>(c: C, l: List<GenericParam>) -> Option<
    (C, List<GenericParam>),
>
    decreases l,
{
    match l {
        List::Nil => Some((c, List::Nil)),
        List::Cons(head, tail) => match walk_generic_param_spec(c, *head) {
            Option::None => None,
            Option::Some((c1, head2)) => match walk_generic_param_list_spec(c1, *tail) {
                Option::None => None,
                Option::Some((c2, tail2)) => Some(
                    (c2, List::Cons(Box::new(head2), Box::new(tail2))),
                ),
            },
        },
    }
}

/// Walks an optional list of generic parameters (higher-ranked lifetimes).
#[verifier::opaque]
pub open spec fn walk_opt_generic_param_list_spec<C: Context>(
    c: C,
    l: Option<List<GenericParam>>,
) -> Option<(C, Option<List<GenericParam>>)>
    decreases l,
{
    match l {
        Option::Some(inner) => match walk_generic_param_list_spec(c, inner) {
            Option::None => None,
            Option::Some((c1, inner2)) => Some((c1, Some(inner2))),
        },
        Option::None => Some((c, None)),
    }
}

/// The walker for generic parameters.
pub struct GenericParamWalker;

impl GenericParamWalker {
    /// Recurse into every owned child of the parameter.
    pub fn walk<C: Context>(param: GenericParam, c: &mut C) -> (r: Result<GenericParam, Error>)
        ensures
            match r {
                Result::Ok(p2) => walk_generic_param_spec(*old(c), param) == Some((*final(c), p2)),
                Result::Err(_) => walk_generic_param_spec(*old(c), param) is None,
            },
        decreases param,
    {
        proof {
            reveal(walk_generic_param_spec);
            reveal(walk_opt_type_spec);
            reveal(walk_tpb_list_spec);
            reveal(crate::walkers::type_::walk_type_spec);
        }
        match param {
            GenericParam::Lifetime(ident, bounds) => {
                let bounds2 = walk_ident_list(bounds, c);
                let ident2 = walk_ident(ident, c);
                Result::Ok(GenericParam::Lifetime(ident2, bounds2))
            },
            GenericParam::Type(ident, bounds, default) => {
                let default2 = walk_opt_type(default, c)?;
                let ident2 = walk_ident(ident, c);
                let bounds2 = walk_tpb_list(bounds, c)?;
                Result::Ok(GenericParam::Type(ident2, bounds2, default2))
            },
            GenericParam::Const(ident, ty) => {
                let ty2 = TypeWalker::walk(*ty, c)?;
                Result::Ok(GenericParam::Const(ident, Box::new(ty2)))
            },
        }
    }
}

/// Walk every generic parameter of a list in order.
pub fn walk_generic_param_list<C: Context>(l: List<GenericParam>, c: &mut C) -> (r: Result<
    List<GenericParam>,
    Error,
>)
    ensures
        match r {
            Result::Ok(l2) => walk_generic_param_list_spec(*old(c), l) == Some((*final(c), l2)),
            Result::Err(_) => walk_generic_param_list_spec(*old(c), l) is None,
        },
    decreases l,
{
    proof {
        reveal(walk_generic_param_list_spec);
        reveal(walk_generic_param_spec);
    }
    match l {
        List::Nil => Result::Ok(List::Nil),
        List::Cons(head, tail) => {
            let head2 = GenericParamWalker::walk(*head, c)?;
            let tail2 = walk_generic_param_list(*tail, c)?;
            Result::Ok(List::Cons(Box::new(head2), Box::new(tail2)))
        },
    }
}

/// Walk an optional list of generic parameters.
pub fn walk_opt_generic_param_list<C: Context>(l: Option<List<GenericParam>>, c: &mut C) -> (r:
    Result<Option<List<GenericParam>>, Error>)
    ensures
        match r {
            Result::Ok(l2) => walk_opt_generic_param_list_spec(*old(c), l) == Some(
                (*final(c), l2),
            ),
            Result::Err(_) => walk_opt_generic_param_list_spec(*old(c), l) is None,
        },
    decreases l,
{
    proof {
        reveal(walk_opt_generic_param_list_spec);
        reveal(walk_generic_param_list_spec);
    }
    match l {
        Option::Some(inner) => {
            let inner2 = walk_generic_param_list(inner, c)?;
            Result::Ok(Some(inner2))
        },
        Option::None => Result::Ok(None),
    }
}

} // verus!
