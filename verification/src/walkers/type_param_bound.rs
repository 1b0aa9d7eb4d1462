//! Walks one bound on a type parameter: a trait bound's higher-ranked
//! lifetimes and path, a lifetime bound's identifier, or the parameters of a
//! precise-capture bound.

use crate::ast::{CapturedParam, TypeParamBound};
use crate::error::Error;
use crate::list::List;
use crate::walkers::generic_param::{
    walk_opt_generic_param_list, walk_opt_generic_param_list_spec,
};
use crate::walkers::path::{walk_path_spec, PathWalker};
use crate::walkers::{walk_ident, walk_ident_spec, Context};
use vstd::prelude::*;

verus! {

/// What walking the parameters of a precise-capture bound does.
#[verifier::opaque]
pub open spec fn walk_captured_list_spec<C: Context>(c: C, l: List<CapturedParam>) -> (
    C,
    List<CapturedParam>,
)
    decreases l,
{
    match l {
        List::Nil => (c, List::Nil),
        List::Cons(head, tail) => {
            let (c1, head2) = match *head {
                CapturedParam::Lifetime(name) => {
                    let (cx, name2) = walk_ident_spec(c, name);
                    (cx, CapturedParam::Lifetime(name2))
                },
                CapturedParam::Ident(name) => {
                    let (cx, name2) = walk_ident_spec(c, name);
                    (cx, CapturedParam::Ident(name2))
                },
            };
            let (c2, tail2) = walk_captured_list_spec(c1, *tail);
            (c2, List::Cons(Box::new(head2), Box::new(tail2)))
        },
    }
}

/// What walking one type-parameter bound does.
#[verifier::opaque]
pub open spec fn walk_tpb_spec<C: Context>(c: C, b: TypeParamBound) -> Option<(C, TypeParamBound)>
    decreases b,
{
    match b {
        TypeParamBound::Trait(lifetimes, path) => match walk_opt_generic_param_list_spec(
            c,
            lifetimes,
        ) {
            Option::None => None,
            Option::Some((c1, lifetimes2)) => match walk_path_spec(c1, path) {
                Option::None => None,
                Option::Some((c2, path2)) => Some(
                    (c2, TypeParamBound::Trait(lifetimes2, path2)),
                ),
            },
        },
        TypeParamBound::Lifetime(name) => {
            let (c1, name2) = walk_ident_spec(c, name);
            Some((c1, TypeParamBound::Lifetime(name2)))
        },
        TypeParamBound::PreciseCapture(params) => {
            let (c1, params2) = walk_captured_list_spec(c, params);
            Some((c1, TypeParamBound::PreciseCapture(params2)))
        },
    }
}

/// Walks every bound of a list in order.
#[verifier::opaque]
pub open spec fn walk_tpb_list_spec<C: Context>(c: C, l: List<TypeParamBound>) -> Option<
    (C, List<TypeParamBound>),
>
    decreases l,
{
    match l {
        List::Nil => Some((c, List::Nil)),
        List::Cons(head, tail) => match walk_tpb_spec(c, *head) {
            Option::None => None,
            Option::Some((c1, head2)) => match walk_tpb_list_spec(c1, *tail) {
                Option::None => None,
                Option::Some((c2, tail2)) => Some(
                    (c2, List::Cons(Box::new(head2), Box::new(tail2))),
                ),
            },
        },
    }
}

/// The walker for type-parameter bounds.
pub struct TypeParamBoundWalker;

impl TypeParamBoundWalker {
    /// Recurse into every owned child of the bound.
    pub fn walk<C: Context>(param: TypeParamBound, c: &mut C) -> (r: Result<TypeParamBound, Error>)
        ensures
            match r {
                Result::Ok(b2) => walk_tpb_spec(*old(c), param) == Some((*final(c), b2)),
                Result::Err(_) => walk_tpb_spec(*old(c), param) is None,
            },
        decreases param,
    {
        proof {
            reveal(walk_tpb_spec);
            reveal(walk_opt_generic_param_list_spec);
            reveal(walk_path_spec);
            reveal(walk_captured_list_spec);
        }
        match param {
            TypeParamBound::Trait(lifetimes, path) => {
                let lifetimes2 = walk_opt_generic_param_list(lifetimes, c)?;
                let path2 = PathWalker::walk(path, c)?;
                Result::Ok(TypeParamBound::Trait(lifetimes2, path2))
            },
            TypeParamBound::Lifetime(name) => {
                let name2 = walk_ident(name, c);
                Result::Ok(TypeParamBound::Lifetime(name2))
            },
            TypeParamBound::PreciseCapture(params) => {
                let params2 = walk_captured_list(params, c);
                Result::Ok(TypeParamBound::PreciseCapture(params2))
            },
        }
    }
}

/// Walk the parameters of a precise-capture bound.
pub fn walk_captured_list<C: Context>(l: List<CapturedParam>, c: &mut C) -> (r: List<CapturedParam>)
    ensures
        walk_captured_list_spec(*old(c), l) == (*final(c), r),
    decreases l,
{
    proof {
        reveal(walk_captured_list_spec);
    }
    match l {
        List::Nil => List::Nil,
        List::Cons(head, tail) => {
            let head2 = match *head {
                CapturedParam::Lifetime(name) => {
                    let name2 = walk_ident(name, c);
                    CapturedParam::Lifetime(name2)
                },
                CapturedParam::Ident(name) => {
                    let name2 = walk_ident(name, c);
                    CapturedParam::Ident(name2)
                },
            };
            let tail2 = walk_captured_list(*tail, c);
            List::Cons(Box::new(head2), Box::new(tail2))
        },
    }
}

/// Walk every bound of a list in order.
pub fn walk_tpb_list<C: Context>(l: List<TypeParamBound>, c: &mut C) -> (r: Result<
    List<TypeParamBound>,
    Error,
>)
    ensures
        match r {
            Result::Ok(l2) => walk_tpb_list_spec(*old(c), l) == Some((*final(c), l2)),
            Result::Err(_) => walk_tpb_list_spec(*old(c), l) is None,
        },
    decreases l,
{
    proof {
        reveal(walk_tpb_list_spec);
        reveal(walk_tpb_spec);
    }
    match l {
        List::Nil => Result::Ok(List::Nil),
        List::Cons(head, tail) => {
            let head2 = TypeParamBoundWalker::walk(*head, c)?;
            let tail2 = walk_tpb_list(*tail, c)?;
            Result::Ok(List::Cons(Box::new(head2), Box::new(tail2)))
        },
    }
}

} // verus!
