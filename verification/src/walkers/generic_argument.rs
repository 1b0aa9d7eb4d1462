//! Walks one generic argument of any kind, including associated-type and
//! associated-const bindings and constraints.

use crate::ast::GenericArg;
use crate::error::Error;
use crate::walkers::angle_bracketed_generic_arguments::{walk_opt_abga, walk_opt_abga_spec};
use crate::walkers::expr::{walk_expr_spec, ExprWalker};
use crate::walkers::type_::{walk_type_spec, TypeWalker};
use crate::walkers::type_param_bound::{walk_tpb_list, walk_tpb_list_spec};
use crate::walkers::{walk_ident, walk_ident_spec, Context};
use vstd::prelude::*;

verus! {

/// What walking one generic argument does, in the fixed order below.
#[verifier::opaque]
pub open spec fn walk_generic_argument_spec<C: Context>(c: C, a: GenericArg) -> Option<
    (C, GenericArg),
>
    decreases a,
{
    match a {
        GenericArg::Lifetime(name) => {
            let (c1, name2) = walk_ident_spec(c, name);
            Some((c1, GenericArg::Lifetime(name2)))
        },
        GenericArg::Type(ty) => match walk_type_spec(c, ty) {
            Option::None => None,
            Option::Some((c1, ty2)) => Some((c1, GenericArg::Type(ty2))),
        },
        GenericArg::Const(value) => match walk_expr_spec(c, value) {
            Option::None => None,
            Option::Some((c1, value2)) => Some((c1, GenericArg::Const(value2))),
        },
        GenericArg::AssocType(name, generics, ty) => {
            let (c1, name2) = walk_ident_spec(c, name);
            match walk_type_spec(c1, ty) {
                Option::None => None,
                Option::Some((c2, ty2)) => match walk_opt_abga_spec(c2, generics) {
                    Option::None => None,
                    Option::Some((c3, generics2)) => Some(
                        (c3, GenericArg::AssocType(name2, generics2, ty2)),
                    ),
                },
            }
        },
        GenericArg::AssocConst(name, generics, value) => {
            let (c1, name2) = walk_ident_spec(c, name);
            match walk_expr_spec(c1, value) {
                Option::None => None,
                Option::Some((c2, value2)) => match walk_opt_abga_spec(c2, generics) {
                    Option::None => None,
                    Option::Some((c3, generics2)) => Some(
                        (c3, GenericArg::AssocConst(name2, generics2, value2)),
                    ),
                },
            }
        },
        GenericArg::Constraint(name, generics, bounds) => {
            let (c1, name2) = walk_ident_spec(c, name);
            match walk_tpb_list_spec(c1, bounds) {
                Option::None => None,
                Option::Some((c2, bounds2)) => match walk_opt_abga_spec(c2, generics) {
                    Option::None => None,
                    Option::Some((c3, generics2)) => Some(
                        (c3, GenericArg::Constraint(name2, generics2, bounds2)),
                    ),
                },
            }
        },
    }
}

/// The walker for generic arguments.
pub struct GenericArgumentWalker;

impl GenericArgumentWalker {
    /// Recurse into every owned child of the argument.
    pub fn walk<C: Context>(param: GenericArg, c: &mut C) -> (r: Result<GenericArg, Error>)
        ensures
            match r {
                Result::Ok(a2) => walk_generic_argument_spec(*old(c), param) == Some(
                    (*final(c), a2),
                ),
                Result::Err(_) => walk_generic_argument_spec(*old(c), param) is None,
            },
        decreases param,
    {
        proof {
            reveal(walk_generic_argument_spec);
            reveal(walk_type_spec);
            reveal(walk_expr_spec);
            reveal(walk_opt_abga_spec);
            reveal(walk_tpb_list_spec);
        }
        match param {
            GenericArg::Lifetime(name) => {
                let name2 = walk_ident(name, c);
                Result::Ok(GenericArg::Lifetime(name2))
            },
            GenericArg::Type(ty) => {
                let ty2 = TypeWalker::walk(ty, c)?;
                Result::Ok(GenericArg::Type(ty2))
            },
            GenericArg::Const(value) => {
                let value2 = ExprWalker::walk(value, c)?;
                Result::Ok(GenericArg::Const(value2))
            },
            GenericArg::AssocType(name, generics, ty) => {
                let name2 = walk_ident(name, c);
                let ty2 = TypeWalker::walk(ty, c)?;
                let generics2 = walk_opt_abga(generics, c)?;
                Result::Ok(GenericArg::AssocType(name2, generics2, ty2))
            },
            GenericArg::AssocConst(name, generics, value) => {
                let name2 = walk_ident(name, c);
                let value2 = ExprWalker::walk(value, c)?;
                let generics2 = walk_opt_abga(generics, c)?;
                Result::Ok(GenericArg::AssocConst(name2, generics2, value2))
            },
            GenericArg::Constraint(name, generics, bounds) => {
                let name2 = walk_ident(name, c);
                let bounds2 = walk_tpb_list(bounds, c)?;
                let generics2 = walk_opt_abga(generics, c)?;
                Result::Ok(GenericArg::Constraint(name2, generics2, bounds2))
            },
        }
    }
}

} // verus!
