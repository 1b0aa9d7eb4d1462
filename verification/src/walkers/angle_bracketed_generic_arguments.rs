//! Walks an angle-bracketed generic-argument list: only type arguments are
//! descended into here; other argument kinds pass through unchanged.

use crate::ast::{AngleBracketedGenericArguments, GenericArg};
use crate::error::Error;
use crate::list::List;
use crate::walkers::type_::{walk_type_spec, TypeWalker};
use crate::walkers::Context;
use vstd::prelude::*;

verus! {

/// What walking an angle-bracketed argument list does: each type argument is
/// walked; every other argument is left unchanged.
#[verifier::opaque]
pub open spec fn walk_abga_spec<C: Context>(c: C, a: AngleBracketedGenericArguments) -> Option<
    (C, AngleBracketedGenericArguments),
>
    decreases a,
{
    match walk_abga_args_spec(c, a.args) {
        Option::None => None,
        Option::Some((c1, args2)) => Some((c1, AngleBracketedGenericArguments { args: args2 })),
    }
}

/// Walks the arguments of an angle-bracketed list, type arguments only.
#[verifier::opaque]
pub open spec fn walk_abga_args_spec<C: Context>(c: C, l: List<GenericArg>) -> Option<
    (C, List<GenericArg>),
>
    decreases l,
{
    match l {
        List::Nil => Some((c, List::Nil)),
        List::Cons(head, tail) => {
            let step = match *head {
                GenericArg::Type(t) => match walk_type_spec(c, t) {
                    Option::None => None,
                    Option::Some((c1, t2)) => Some((c1, GenericArg::Type(t2))),
                },
                other => Some((c, other)),
            };
            match step {
                Option::None => None,
                Option::Some((c1, head2)) => match walk_abga_args_spec(c1, *tail) {
                    Option::None => None,
                    Option::Some((c2, tail2)) => Some(
                        (c2, List::Cons(Box::new(head2), Box::new(tail2))),
                    ),
                },
            }
        },
    }
}

/// What walking an optional angle-bracketed argument list does.
#[verifier::opaque]
pub open spec fn walk_opt_abga_spec<C: Context>(
    c: C,
    a: Option<AngleBracketedGenericArguments>,
) -> Option<(C, Option<AngleBracketedGenericArguments>)>
    decreases a,
{
    match a {
        Option::Some(inner) => match walk_abga_spec(c, inner) {
            Option::None => None,
            Option::Some((c1, inner2)) => Some((c1, Some(inner2))),
        },
        Option::None => Some((c, None)),
    }
}

/// The walker for angle-bracketed generic-argument lists.
pub struct AngleBracketedGenericArgumentsWalker;

impl AngleBracketedGenericArgumentsWalker {
    /// Walk every type argument of the list.
    pub fn walk<C: Context>(arguments: AngleBracketedGenericArguments, c: &mut C) -> (r: Result<
        AngleBracketedGenericArguments,
        Error,
    >)
        ensures
            match r {
                Result::Ok(a2) => walk_abga_spec(*old(c), arguments) == Some((*final(c), a2)),
                Result::Err(_) => walk_abga_spec(*old(c), arguments) is None,
            },
        decreases arguments,
    {

        proof {
            reveal(walk_abga_spec);
            reveal(walk_abga_args_spec);
        }
        proof {
        }
        let args2 = walk_abga_args(arguments.args, c)?;
        Result::Ok(AngleBracketedGenericArguments { args: args2 })
    }
}

/// Walk the type arguments of an angle-bracketed list.
pub fn walk_abga_args<C: Context>(l: List<GenericArg>, c: &mut C) -> (r: Result<
    List<GenericArg>,
    Error,
>)
    ensures
        match r {
            Result::Ok(l2) => walk_abga_args_spec(*old(c), l) == Some((*final(c), l2)),
            Result::Err(_) => walk_abga_args_spec(*old(c), l) is None,
        },
    decreases l,
{
    proof {
        reveal(walk_abga_args_spec);
        reveal(walk_type_spec);
    }
    match l {
        List::Nil => Result::Ok(List::Nil),
        List::Cons(head, tail) => {
            let head2 = match *head {
                GenericArg::Type(t) => {
                    let t2 = TypeWalker::walk(t, c)?;
                    GenericArg::Type(t2)
                },
                other => other,
            };
            let tail2 = walk_abga_args(*tail, c)?;
            Result::Ok(List::Cons(Box::new(head2), Box::new(tail2)))
        },
    }
}

/// Walk an optional angle-bracketed argument list.
pub fn walk_opt_abga<C: Context>(a: Option<AngleBracketedGenericArguments>, c: &mut C) -> (r:
    Result<Option<AngleBracketedGenericArguments>, Error>)
    ensures
        match r {
            Result::Ok(a2) => walk_opt_abga_spec(*old(c), a) == Some((*final(c), a2)),
            Result::Err(_) => walk_opt_abga_spec(*old(c), a) is None,
        },
    decreases a,
{
    proof {
        reveal(walk_opt_abga_spec);
        reveal(walk_abga_spec);
    }
    match a {
        Option::Some(inner) => {
            let inner2 = AngleBracketedGenericArgumentsWalker::walk(inner, c)?;
            Result::Ok(Some(inner2))
        },
        Option::None => Result::Ok(None),
    }
}

} // verus!
