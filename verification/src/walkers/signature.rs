//! Walks a function signature: name, generics, variadic pattern, inputs, and
//! return type.

use crate::ast::{FnArg, Signature};
use crate::error::Error;
use crate::list::List;
use crate::walkers::generics::{walk_generics_spec, GenericsWalker};
use crate::walkers::pattern::{walk_pat_spec, PatternWalker};
use crate::walkers::type_::{walk_opt_type, walk_opt_type_spec, walk_type_spec, TypeWalker};
use crate::walkers::{
    walk_ident, walk_ident_spec, walk_opt_ident, walk_opt_ident_spec, Context,
};
use vstd::prelude::*;

verus! {

/// What walking one signature input does: a receiver's type then its
/// lifetime, or an ordinary input's type then its pattern.
#[verifier::opaque]
pub open spec fn walk_fn_arg_spec<C: Context>(c: C, a: FnArg) -> Option<(C, FnArg)>
    decreases a,
{
    match a {
        FnArg::Receiver(reference, ty) => match walk_type_spec(c, *ty) {
            Option::None => None,
            Option::Some((c1, ty2)) => {
                let (c2, reference2) = match reference {
                    Option::Some(inner) => {
                        let (cx, inner2) = walk_opt_ident_spec(c1, inner);
                        (cx, Some(inner2))
                    },
                    Option::None => (c1, None),
                };
                Some((c2, FnArg::Receiver(reference2, Box::new(ty2))))
            },
        },
        FnArg::Typed(pat, ty) => match walk_type_spec(c, *ty) {
            Option::None => None,
            Option::Some((c1, ty2)) => match walk_pat_spec(c1, *pat) {
                Option::None => None,
                Option::Some((c2, pat2)) => Some(
                    (c2, FnArg::Typed(Box::new(pat2), Box::new(ty2))),
                ),
            },
        },
    }
}

/// Walks every signature input in order.
#[verifier::opaque]
pub open spec fn walk_fn_arg_list_spec<C: Context>(c: C, l: List<FnArg>) -> Option<
    (C, List<FnArg>),
>
    decreases l,
{
    match l {
        List::Nil => Some((c, List::Nil)),
        List::Cons(head, tail) => match walk_fn_arg_spec(c, *head) {
            Option::None => None,
            Option::Some((c1, head2)) => match walk_fn_arg_list_spec(c1, *tail) {
                Option::None => None,
                Option::Some((c2, tail2)) => Some(
                    (c2, List::Cons(Box::new(head2), Box::new(tail2))),
                ),
            },
        },
    }
}

/// What walking a signature does: its name, generics, variadic pattern,
/// inputs, and return type, in that order.
#[verifier::opaque]
pub open spec fn walk_signature_spec<C: Context>(c: C, s: Signature) -> Option<(C, Signature)>
    decreases s,
{
    let (c0, ident2) = walk_ident_spec(c, s.ident);
    match walk_generics_spec(c0, s.generics) {
        Option::None => None,
        Option::Some((c1, generics2)) => {
            let step = match s.variadic {
                Option::Some(inner) => match inner {
                    Option::Some(pat) => match walk_pat_spec(c1, *pat) {
                        Option::None => None,
                        Option::Some((cx, pat2)) => Some((cx, Some(Some(Box::new(pat2))))),
                    },
                    Option::None => Some((c1, Some(None))),
                },
                Option::None => Some((c1, None)),
            };
            match step {
                Option::None => None,
                Option::Some((c2, variadic2)) => match walk_fn_arg_list_spec(c2, s.inputs) {
                    Option::None => None,
                    Option::Some((c3, inputs2)) => match walk_opt_type_spec(c3, s.output) {
                        Option::None => None,
                        Option::Some((c4, output2)) => Some(
                            (
                                c4,
                                Signature {
                                    ident: ident2,
                                    generics: generics2,
                                    inputs: inputs2,
                                    variadic: variadic2,
                                    output: output2,
                                },
                            ),
                        ),
                    },
                },
            }
        },
    }
}

/// The walker for function signatures.
pub struct SignatureWalker;

impl SignatureWalker {
    /// Recurse into every owned child of the signature.
    pub fn walk<C: Context>(signature: Signature, c: &mut C) -> (r: Result<Signature, Error>)
        ensures
            match r {
                Result::Ok(s2) => walk_signature_spec(*old(c), signature) == Some(
                    (*final(c), s2),
                ),
                Result::Err(_) => walk_signature_spec(*old(c), signature) is None,
            },
        decreases signature,
    {
        proof {
            reveal(walk_signature_spec);
            reveal(walk_generics_spec);
            reveal(walk_pat_spec);
            reveal(walk_fn_arg_list_spec);
            reveal(walk_opt_type_spec);
        }
        let ident2 = walk_ident(signature.ident, c);
        let generics2 = GenericsWalker::walk(signature.generics, c)?;
        let variadic2 = match signature.variadic {
            Option::Some(inner) => match inner {
                Option::Some(pat) => {
                    let pat2 = PatternWalker::walk(*pat, c)?;
                    Some(Some(Box::new(pat2)))
                },
                Option::None => Some(None),
            },
            Option::None => None,
        };
        let inputs2 = walk_fn_arg_list(signature.inputs, c)?;
        let output2 = walk_opt_type(signature.output, c)?;
        Result::Ok(
            Signature {
                ident: ident2,
                generics: generics2,
                inputs: inputs2,
                variadic: variadic2,
                output: output2,
            },
        )
    }
}

/// Walk every signature input in order.
pub fn walk_fn_arg_list<C: Context>(l: List<FnArg>, c: &mut C) -> (r: Result<List<FnArg>, Error>)
    ensures
        match r {
            Result::Ok(l2) => walk_fn_arg_list_spec(*old(c), l) == Some((*final(c), l2)),
            Result::Err(_) => walk_fn_arg_list_spec(*old(c), l) is None,
        },
    decreases l,
{
    proof {
        reveal(walk_fn_arg_list_spec);
        reveal(walk_fn_arg_spec);
        reveal(walk_type_spec);
        reveal(walk_pat_spec);
    }
    match l {
        List::Nil => Result::Ok(List::Nil),
        List::Cons(head, tail) => {
            let head2 = match *head {
                FnArg::Receiver(reference, ty) => {
                    let ty2 = TypeWalker::walk(*ty, c)?;
                    let reference2 = match reference {
                        Option::Some(inner) => Some(walk_opt_ident(inner, c)),
                        Option::None => None,
                    };
                    FnArg::Receiver(reference2, Box::new(ty2))
                },
                FnArg::Typed(pat, ty) => {
                    let ty2 = TypeWalker::walk(*ty, c)?;
                    let pat2 = PatternWalker::walk(*pat, c)?;
                    FnArg::Typed(Box::new(pat2), Box::new(ty2))
                },
            };
            let tail2 = walk_fn_arg_list(*tail, c)?;
            Result::Ok(List::Cons(Box::new(head2), Box::new(tail2)))
        },
    }
}

} // verus!
