//! Walks the generics of a declaration: parameters, then the where clause.

use crate::ast::Generics;
use crate::error::Error;
use crate::walkers::generic_param::{walk_generic_param_list, walk_generic_param_list_spec};
use crate::walkers::where_clause::{walk_opt_where_clause, walk_opt_where_clause_spec};
use crate::walkers::Context;
use vstd::prelude::*;

verus! {

/// What walking a generics node does: parameters, then the where clause.
#[verifier::opaque]
pub open spec fn walk_generics_spec<C: Context>(c: C, g: Generics) -> Option<(C, Generics)>
    decreases g,
{
    match walk_generic_param_list_spec(c, g.params) {
        Option::None => None,
        Option::Some((c1, params2)) => match walk_opt_where_clause_spec(c1, g.where_clause) {
            Option::None => None,
            Option::Some((c2, where2)) => Some(
                (c2, Generics { params: params2, where_clause: where2 }),
            ),
        },
    }
}

/// The walker for generics.
pub struct GenericsWalker;

impl GenericsWalker {
    /// Walk every parameter, then the where clause.
    pub fn walk<C: Context>(generics: Generics, c: &mut C) -> (r: Result<Generics, Error>)
        ensures
            match r {
                Result::Ok(g2) => walk_generics_spec(*old(c), generics) == Some((*final(c), g2)),
                Result::Err(_) => walk_generics_spec(*old(c), generics) is None,
            },
        decreases generics,
    {
        proof {
            reveal(walk_generics_spec);
            reveal(walk_generic_param_list_spec);
            reveal(walk_opt_where_clause_spec);
        }
        let params2 = walk_generic_param_list(generics.params, c)?;
        let where2 = walk_opt_where_clause(generics.where_clause, c)?;
        Result::Ok(Generics { params: params2, where_clause: where2 })
    }
}

} // verus!
