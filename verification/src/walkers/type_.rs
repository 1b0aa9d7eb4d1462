//! Walks a type node: the type predicate is consulted at entry, then every
//! structurally owned child of the matched kind is descended into.

use crate::ast::{BareFnArg, Type};
use crate::error::Error;
use crate::list::List;
use crate::walkers::expr::{walk_expr_spec, ExprWalker};
use crate::walkers::generic_param::{walk_opt_generic_param_list, walk_opt_generic_param_list_spec};
use crate::walkers::macro_::{walk_macro_spec, MacroWalker};
use crate::walkers::path::{walk_path_spec, PathWalker};
use crate::walkers::type_param_bound::{walk_tpb_list, walk_tpb_list_spec};
use crate::walkers::{walk_ident_spec, walk_opt_ident, walk_opt_ident_spec, Context};
use vstd::prelude::*;

verus! {

/// What walking a type does: one application of the type predicate, then,
/// unless the node was handled, default recursion into every owned child.
#[verifier::opaque]
pub open spec fn walk_type_spec<C: Context>(c: C, t: Type) -> Option<(C, Type)>
    decreases t,
{
    let (c0, t0, handled) = if c.type_on() {
        c.type_step(t)
    } else {
        (c, t, false)
    };
    if handled {
        Some((c0, t0))
    } else {
        match t {
            Type::Array(elem, len) => match walk_type_spec(c0, *elem) {
                Option::None => None,
                Option::Some((c1, elem2)) => match walk_expr_spec(c1, *len) {
                    Option::None => None,
                    Option::Some((c2, len2)) => Some(
                        (c2, Type::Array(Box::new(elem2), Box::new(len2))),
                    ),
                },
            },
            Type::BareFn(lifetimes, variadic, inputs, output) => match walk_opt_generic_param_list_spec(
                c0,
                lifetimes,
            ) {
                Option::None => None,
                Option::Some((c1, lifetimes2)) => {
                    let (c2, variadic2) = match variadic {
                        Option::Some(inner) => {
                            let (cv, inner2) = walk_opt_ident_spec(c1, inner);
                            (cv, Some(inner2))
                        },
                        Option::None => (c1, None),
                    };
                    match walk_bare_fn_arg_list_spec(c2, inputs) {
                        Option::None => None,
                        Option::Some((c3, inputs2)) => match walk_opt_type_spec(c3, output) {
                            Option::None => None,
                            Option::Some((c4, output2)) => Some(
                                (c4, Type::BareFn(lifetimes2, variadic2, inputs2, output2)),
                            ),
                        },
                    }
                },
            },
            Type::Group(elem) => match walk_type_spec(c0, *elem) {
                Option::None => None,
                Option::Some((c1, elem2)) => Some((c1, Type::Group(Box::new(elem2)))),
            },
            Type::ImplTrait(bounds) => match walk_tpb_list_spec(c0, bounds) {
                Option::None => None,
                Option::Some((c1, bounds2)) => Some((c1, Type::ImplTrait(bounds2))),
            },
            Type::Macro(mac) => match walk_macro_spec(c0, mac) {
                Option::None => None,
                Option::Some((c1, mac2)) => Some((c1, Type::Macro(mac2))),
            },
            Type::Paren(elem) => match walk_type_spec(c0, *elem) {
                Option::None => None,
                Option::Some((c1, elem2)) => Some((c1, Type::Paren(Box::new(elem2)))),
            },
            Type::Path(qself, path) => match walk_opt_type_spec(c0, qself) {
                Option::None => None,
                Option::Some((c1, qself2)) => match walk_path_spec(c1, path) {
                    Option::None => None,
                    Option::Some((c2, path2)) => Some((c2, Type::Path(qself2, path2))),
                },
            },
            Type::Ptr(elem) => match walk_type_spec(c0, *elem) {
                Option::None => None,
                Option::Some((c1, elem2)) => Some((c1, Type::Ptr(Box::new(elem2)))),
            },
            Type::Reference(lifetime, elem) => match walk_type_spec(c0, *elem) {
                Option::None => None,
                Option::Some((c1, elem2)) => {
                    let (c2, lifetime2) = walk_opt_ident_spec(c1, lifetime);
                    Some((c2, Type::Reference(lifetime2, Box::new(elem2))))
                },
            },
            Type::Slice(elem) => match walk_type_spec(c0, *elem) {
                Option::None => None,
                Option::Some((c1, elem2)) => Some((c1, Type::Slice(Box::new(elem2)))),
            },
            Type::TraitObject(bounds) => match walk_tpb_list_spec(c0, bounds) {
                Option::None => None,
                Option::Some((c1, bounds2)) => Some((c1, Type::TraitObject(bounds2))),
            },
            Type::Tuple(elems) => match walk_type_list_spec(c0, elems) {
                Option::None => None,
                Option::Some((c1, elems2)) => Some((c1, Type::Tuple(elems2))),
            },
            Type::Infer => Some((c0, Type::Infer)),
            Type::Never => Some((c0, Type::Never)),
            Type::Verbatim(tokens) => Some((c0, Type::Verbatim(tokens))),
        }
    }
}

/// Walks every type of a list in order.
#[verifier::opaque]
pub open spec fn walk_type_list_spec<C: Context>(c: C, l: List<Type>) -> Option<(C, List<Type>)>
    decreases l,
{
    match l {
        List::Nil => Some((c, List::Nil)),
        List::Cons(head, tail) => match walk_type_spec(c, *head) {
            Option::None => None,
            Option::Some((c1, head2)) => match walk_type_list_spec(c1, *tail) {
                Option::None => None,
                Option::Some((c2, tail2)) => Some(
                    (c2, List::Cons(Box::new(head2), Box::new(tail2))),
                ),
            },
        },
    }
}

/// Walks an optional type.
#[verifier::opaque]
pub open spec fn walk_opt_type_spec<C: Context>(c: C, t: Option<Box<Type>>) -> Option<
    (C, Option<Box<Type>>),
>
    decreases t,
{
    match t {
        Option::Some(inner) => match walk_type_spec(c, *inner) {
            Option::None => None,
            Option::Some((c1, inner2)) => Some((c1, Some(Box::new(inner2)))),
        },
        Option::None => Some((c, None)),
    }
}

/// Walks the arguments of a function-pointer type: each argument's optional
/// name is handed to the identifier predicate, then its type is walked.
#[verifier::opaque]
pub open spec fn walk_bare_fn_arg_list_spec<C: Context>(c: C, l: List<BareFnArg>) -> Option<
    (C, List<BareFnArg>),
>
    decreases l,
{
    match l {
        List::Nil => Some((c, List::Nil)),
        List::Cons(head, tail) => {
            let arg = *head;
            let (c1, name2) = walk_opt_ident_spec(c, arg.name);
            match walk_type_spec(c1, arg.ty) {
                Option::None => None,
                Option::Some((c2, ty2)) => match walk_bare_fn_arg_list_spec(c2, *tail) {
                    Option::None => None,
                    Option::Some((c3, tail2)) => Some(
                        (
                            c3,
                            List::Cons(
                                Box::new(BareFnArg { name: name2, ty: ty2 }),
                                Box::new(tail2),
                            ),
                        ),
                    ),
                },
            }
        },
    }
}

/// The walker for type nodes.
pub struct TypeWalker;

impl TypeWalker {
    /// Consult the type predicate, then recurse into every owned child.
    pub fn walk<C: Context>(type_: Type, c: &mut C) -> (r: Result<Type, Error>)
        ensures
            match r {
                Result::Ok(t2) => walk_type_spec(*old(c), type_) == Some((*final(c), t2)),
                Result::Err(_) => walk_type_spec(*old(c), type_) is None,
            },
        decreases type_,
    {
        proof {
            reveal(walk_type_spec);
            reveal(walk_expr_spec);
            reveal(walk_opt_generic_param_list_spec);
            reveal(walk_bare_fn_arg_list_spec);
            reveal(walk_opt_type_spec);
            reveal(walk_tpb_list_spec);
            reveal(walk_macro_spec);
            reveal(walk_path_spec);
            reveal(walk_type_list_spec);
        }
        let ghost c_in = *c;
        let ghost t_in = type_;
        let (t0, handled) = if c.has_type() {
            c.apply_type(type_)
        } else {
            (type_, false)
        };
        if handled {
            return Result::Ok(t0);
        }
        proof {
            C::type_step_unhandled(c_in, t_in);
            assert(t0 == t_in);
        }
        match t0 {
            Type::Array(elem, len) => {
                let elem2 = TypeWalker::walk(*elem, c)?;
                let len2 = ExprWalker::walk(*len, c)?;
                Result::Ok(Type::Array(Box::new(elem2), Box::new(len2)))
            },
            Type::BareFn(lifetimes, variadic, inputs, output) => {
                let lifetimes2 = walk_opt_generic_param_list(lifetimes, c)?;
                let variadic2 = match variadic {
                    Option::Some(inner) => Some(walk_opt_ident(inner, c)),
                    Option::None => None,
                };
                let inputs2 = walk_bare_fn_arg_list(inputs, c)?;
                let output2 = walk_opt_type(output, c)?;
                Result::Ok(Type::BareFn(lifetimes2, variadic2, inputs2, output2))
            },
            Type::Group(elem) => {
                let elem2 = TypeWalker::walk(*elem, c)?;
                Result::Ok(Type::Group(Box::new(elem2)))
            },
            Type::ImplTrait(bounds) => {
                let bounds2 = walk_tpb_list(bounds, c)?;
                Result::Ok(Type::ImplTrait(bounds2))
            },
            Type::Macro(mac) => {
                let mac2 = MacroWalker::walk(mac, c)?;
                Result::Ok(Type::Macro(mac2))
            },
            Type::Paren(elem) => {
                let elem2 = TypeWalker::walk(*elem, c)?;
                Result::Ok(Type::Paren(Box::new(elem2)))
            },
            Type::Path(qself, path) => {
                let qself2 = walk_opt_type(qself, c)?;
                let path2 = PathWalker::walk(path, c)?;
                Result::Ok(Type::Path(qself2, path2))
            },
            Type::Ptr(elem) => {
                let elem2 = TypeWalker::walk(*elem, c)?;
                Result::Ok(Type::Ptr(Box::new(elem2)))
            },
            Type::Reference(lifetime, elem) => {
                let elem2 = TypeWalker::walk(*elem, c)?;
                let lifetime2 = walk_opt_ident(lifetime, c);
                Result::Ok(Type::Reference(lifetime2, Box::new(elem2)))
            },
            Type::Slice(elem) => {
                let elem2 = TypeWalker::walk(*elem, c)?;
                Result::Ok(Type::Slice(Box::new(elem2)))
            },
            Type::TraitObject(bounds) => {
                let bounds2 = walk_tpb_list(bounds, c)?;
                Result::Ok(Type::TraitObject(bounds2))
            },
            Type::Tuple(elems) => {
                let elems2 = walk_type_list(elems, c)?;
                Result::Ok(Type::Tuple(elems2))
            },
            Type::Infer => Result::Ok(Type::Infer),
            Type::Never => Result::Ok(Type::Never),
            Type::Verbatim(tokens) => Result::Ok(Type::Verbatim(tokens)),
        }
    }
}

/// Walk every type of a list in order.
pub fn walk_type_list<C: Context>(l: List<Type>, c: &mut C) -> (r: Result<List<Type>, Error>)
    ensures
        match r {
            Result::Ok(l2) => walk_type_list_spec(*old(c), l) == Some((*final(c), l2)),
            Result::Err(_) => walk_type_list_spec(*old(c), l) is None,
        },
    decreases l,
{
    proof {
        reveal(walk_type_list_spec);
        reveal(walk_type_spec);
    }
    match l {
        List::Nil => Result::Ok(List::Nil),
        List::Cons(head, tail) => {
            let head2 = TypeWalker::walk(*head, c)?;
            let tail2 = walk_type_list(*tail, c)?;
            Result::Ok(List::Cons(Box::new(head2), Box::new(tail2)))
        },
    }
}

/// Walk an optional type.
pub fn walk_opt_type<C: Context>(t: Option<Box<Type>>, c: &mut C) -> (r: Result<
    Option<Box<Type>>,
    Error,
>)
    ensures
        match r {
            Result::Ok(t2) => walk_opt_type_spec(*old(c), t) == Some((*final(c), t2)),
            Result::Err(_) => walk_opt_type_spec(*old(c), t) is None,
        },
    decreases t,
{
    proof {
        reveal(walk_opt_type_spec);
        reveal(walk_type_spec);
    }
    match t {
        Option::Some(inner) => {
            let inner2 = TypeWalker::walk(*inner, c)?;
            Result::Ok(Some(Box::new(inner2)))
        },
        Option::None => Result::Ok(None),
    }
}

/// Walk the arguments of a function-pointer type.
pub fn walk_bare_fn_arg_list<C: Context>(l: List<BareFnArg>, c: &mut C) -> (r: Result<
    List<BareFnArg>,
    Error,
>)
    ensures
        match r {
            Result::Ok(l2) => walk_bare_fn_arg_list_spec(*old(c), l) == Some((*final(c), l2)),
            Result::Err(_) => walk_bare_fn_arg_list_spec(*old(c), l) is None,
        },
    decreases l,
{
    proof {
        reveal(walk_bare_fn_arg_list_spec);
        reveal(walk_type_spec);
    }
    match l {
        List::Nil => Result::Ok(List::Nil),
        List::Cons(head, tail) => {
            let arg = *head;
            let name2 = walk_opt_ident(arg.name, c);
            let ty2 = TypeWalker::walk(arg.ty, c)?;
            let tail2 = walk_bare_fn_arg_list(*tail, c)?;
            Result::Ok(List::Cons(Box::new(BareFnArg { name: name2, ty: ty2 }), Box::new(tail2)))
        },
    }
}

} // verus!
