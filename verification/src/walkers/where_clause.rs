//! Walks a where clause: each predicate's lifetimes, bounded type and bounds.

use crate::ast::{WhereClause, WherePredicate};
use crate::error::Error;
use crate::list::List;
use crate::walkers::generic_param::{
    walk_opt_generic_param_list, walk_opt_generic_param_list_spec,
};
use crate::walkers::type_::{walk_type_spec, TypeWalker};
use crate::walkers::type_param_bound::{walk_tpb_list, walk_tpb_list_spec};
use crate::walkers::{
    walk_ident, walk_ident_list, walk_ident_list_spec, walk_ident_spec, Context,
};
use vstd::prelude::*;

verus! {

/// What walking one where-clause predicate does.
#[verifier::opaque]
pub open spec fn walk_where_predicate_spec<C: Context>(c: C, p: WherePredicate) -> Option<
    (C, WherePredicate),
>
    decreases p,
{
    match p {
        WherePredicate::Lifetime(lifetime, bounds) => {
            let (c1, lifetime2) = walk_ident_spec(c, lifetime);
            let (c2, bounds2) = walk_ident_list_spec(c1, bounds);
            Some((c2, WherePredicate::Lifetime(lifetime2, bounds2)))
        },
        WherePredicate::Type(lifetimes, bounded, bounds) => match walk_type_spec(c, bounded) {
            Option::None => None,
            Option::Some((c1, bounded2)) => match walk_opt_generic_param_list_spec(c1, lifetimes) {
                Option::None => None,
                Option::Some((c2, lifetimes2)) => match walk_tpb_list_spec(c2, bounds) {
                    Option::None => None,
                    Option::Some((c3, bounds2)) => Some(
                        (c3, WherePredicate::Type(lifetimes2, bounded2, bounds2)),
                    ),
                },
            },
        },
    }
}

/// Walks every predicate of a where clause in order.
#[verifier::opaque]
pub open spec fn walk_where_predicate_list_spec<C: Context>(c: C, l: List<WherePredicate>) -> Option<
    (C, List<WherePredicate>),
>
    decreases l,
{
    match l {
        List::Nil => Some((c, List::Nil)),
        List::Cons(head, tail) => match walk_where_predicate_spec(c, *head) {
            Option::None => None,
            Option::Some((c1, head2)) => match walk_where_predicate_list_spec(c1, *tail) {
                Option::None => None,
                Option::Some((c2, tail2)) => Some(
                    (c2, List::Cons(Box::new(head2), Box::new(tail2))),
                ),
            },
        },
    }
}

/// What walking a whole where clause does.
#[verifier::opaque]
pub open spec fn walk_where_clause_spec<C: Context>(c: C, w: WhereClause) -> Option<
    (C, WhereClause),
>
    decreases w,
{
    match walk_where_predicate_list_spec(c, w.predicates) {
        Option::None => None,
        Option::Some((c1, predicates2)) => Some((c1, WhereClause { predicates: predicates2 })),
    }
}

/// What walking an optional where clause does.
#[verifier::opaque]
pub open spec fn walk_opt_where_clause_spec<C: Context>(c: C, w: Option<WhereClause>) -> Option<
    (C, Option<WhereClause>),
>
    decreases w,
{
    match w {
        Option::Some(inner) => match walk_where_clause_spec(c, inner) {
            Option::None => None,
            Option::Some((c1, inner2)) => Some((c1, Some(inner2))),
        },
        Option::None => Some((c, None)),
    }
}

/// The walker for where clauses.
pub struct WhereClauseWalker;

impl WhereClauseWalker {
    /// Recurse into every predicate of the clause.
    pub fn walk<C: Context>(where_clause: WhereClause, c: &mut C) -> (r: Result<WhereClause, Error>)
        ensures
            match r {
                Result::Ok(w2) => walk_where_clause_spec(*old(c), where_clause) == Some(
                    (*final(c), w2),
                ),
                Result::Err(_) => walk_where_clause_spec(*old(c), where_clause) is None,
            },
        decreases where_clause,
    {
        proof {
            reveal(walk_where_clause_spec);
            reveal(walk_where_predicate_list_spec);
        }
        let predicates2 = walk_where_predicate_list(where_clause.predicates, c)?;
        Result::Ok(WhereClause { predicates: predicates2 })
    }
}

/// Walk every predicate of a where clause in order.
pub fn walk_where_predicate_list<C: Context>(l: List<WherePredicate>, c: &mut C) -> (r: Result<
    List<WherePredicate>,
    Error,
>)
    ensures
        match r {
            Result::Ok(l2) => walk_where_predicate_list_spec(*old(c), l) == Some((*final(c), l2)),
            Result::Err(_) => walk_where_predicate_list_spec(*old(c), l) is None,
        },
    decreases l,
{
    proof {
        reveal(walk_where_predicate_list_spec);
        reveal(walk_where_predicate_spec);
        reveal(walk_type_spec);
        reveal(walk_opt_generic_param_list_spec);
        reveal(walk_tpb_list_spec);
    }
    match l {
        List::Nil => Result::Ok(List::Nil),
        List::Cons(head, tail) => {
            let head2 = match *head {
                WherePredicate::Lifetime(lifetime, bounds) => {
                    let lifetime2 = walk_ident(lifetime, c);
                    let bounds2 = walk_ident_list(bounds, c);
                    WherePredicate::Lifetime(lifetime2, bounds2)
                },
                WherePredicate::Type(lifetimes, bounded, bounds) => {
                    let bounded2 = TypeWalker::walk(bounded, c)?;
                    let lifetimes2 = walk_opt_generic_param_list(lifetimes, c)?;
                    let bounds2 = walk_tpb_list(bounds, c)?;
                    WherePredicate::Type(lifetimes2, bounded2, bounds2)
                },
            };
            let tail2 = walk_where_predicate_list(*tail, c)?;
            Result::Ok(List::Cons(Box::new(head2), Box::new(tail2)))
        },
    }
}

/// Walk an optional where clause.
pub fn walk_opt_where_clause<C: Context>(w: Option<WhereClause>, c: &mut C) -> (r: Result<
    Option<WhereClause>,
    Error,
>)
    ensures
        match r {
            Result::Ok(w2) => walk_opt_where_clause_spec(*old(c), w) == Some((*final(c), w2)),
            Result::Err(_) => walk_opt_where_clause_spec(*old(c), w) is None,
        },
    decreases w,
{
    proof {
        reveal(walk_opt_where_clause_spec);
        reveal(walk_where_clause_spec);
    }
    match w {
        Option::Some(inner) => {
            let inner2 = WhereClauseWalker::walk(inner, c)?;
            Result::Ok(Some(inner2))
        },
        Option::None => Result::Ok(None),
    }
}

} // verus!
