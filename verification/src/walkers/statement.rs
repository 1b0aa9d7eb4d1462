//! Walks a statement node: the statement predicate is consulted at entry.  A
//! nested item declaration in statement position is a fail-stop unimplemented
//! extension point: the walk aborts with an unsupported-construct failure.

use crate::ast::{LocalInit, Stmt};
use crate::error::Error;
use crate::list::List;
use crate::walkers::expr::{walk_opt_expr, walk_opt_expr_spec, ExprWalker};
use crate::walkers::expr::walk_expr_spec;
use crate::walkers::macro_::{walk_macro_spec, MacroWalker};
use crate::walkers::pattern::{walk_pat_spec, PatternWalker};
use crate::walkers::Context;
use vstd::prelude::*;

verus! {

/// What walking a statement does: one application of the statement
/// predicate, then, unless the node was handled, default recursion.  A
/// nested item yields no result: the walk fails there.
#[verifier::opaque]
pub open spec fn walk_stmt_spec<C: Context>(c: C, s: Stmt) -> Option<(C, Stmt)>
    decreases s,
{
    let (c0, s0, handled) = if c.stmt_on() {
        c.stmt_step(s)
    } else {
        (c, s, false)
    };
    if handled {
        Some((c0, s0))
    } else {
        match s {
            Stmt::Local(pat, init) => match walk_pat_spec(c0, *pat) {
                Option::None => None,
                Option::Some((c1, pat2)) => match init {
                    Option::Some(i) => match walk_expr_spec(c1, *i.expr) {
                        Option::None => None,
                        Option::Some((c2, expr2)) => match walk_opt_expr_spec(c2, i.diverge) {
                            Option::None => None,
                            Option::Some((c3, diverge2)) => Some(
                                (
                                    c3,
                                    Stmt::Local(
                                        Box::new(pat2),
                                        Some(
                                            LocalInit {
                                                expr: Box::new(expr2),
                                                diverge: diverge2,
                                            },
                                        ),
                                    ),
                                ),
                            ),
                        },
                    },
                    Option::None => Some((c1, Stmt::Local(Box::new(pat2), None))),
                },
            },
            Stmt::Item(_) => None,
            Stmt::Expr(e, semi) => match walk_expr_spec(c0, *e) {
                Option::None => None,
                Option::Some((c1, e2)) => Some((c1, Stmt::Expr(Box::new(e2), semi))),
            },
            Stmt::Macro(mac) => match walk_macro_spec(c0, mac) {
                Option::None => None,
                Option::Some((c1, mac2)) => Some((c1, Stmt::Macro(mac2))),
            },
        }
    }
}

/// Walks every statement of a list in order.
#[verifier::opaque]
pub open spec fn walk_stmt_list_spec<C: Context>(c: C, l: List<Stmt>) -> Option<(C, List<Stmt>)>
    decreases l,
{
    match l {
        List::Nil => Some((c, List::Nil)),
        List::Cons(head, tail) => match walk_stmt_spec(c, *head) {
            Option::None => None,
            Option::Some((c1, head2)) => match walk_stmt_list_spec(c1, *tail) {
                Option::None => None,
                Option::Some((c2, tail2)) => Some(
                    (c2, List::Cons(Box::new(head2), Box::new(tail2))),
                ),
            },
        },
    }
}

/// The walker for statement nodes.
pub struct StatementWalker;

impl StatementWalker {
    /// Consult the statement predicate, then recurse into every owned child.
    pub fn walk<C: Context>(statement: Stmt, c: &mut C) -> (r: Result<Stmt, Error>)
        ensures
            match r {
                Result::Ok(s2) => walk_stmt_spec(*old(c), statement) == Some((*final(c), s2)),
                Result::Err(_) => walk_stmt_spec(*old(c), statement) is None,
            },
        decreases statement,
    {
        proof {
            reveal(walk_stmt_spec);
            reveal(walk_pat_spec);
            reveal(walk_expr_spec);
            reveal(walk_opt_expr_spec);
            reveal(walk_macro_spec);
        }
        let ghost c_in = *c;
        let ghost s_in = statement;
        let (s0, handled) = if c.has_stmt() {
            c.apply_stmt(statement)
        } else {
            (statement, false)
        };
        if handled {
            return Result::Ok(s0);
        }
        proof {
            C::stmt_step_unhandled(c_in, s_in);
            assert(s0 == s_in);
        }
        match s0 {
            Stmt::Local(pat, init) => {
                let pat2 = PatternWalker::walk(*pat, c)?;
                match init {
                    Option::Some(i) => {
                        let expr2 = ExprWalker::walk(*i.expr, c)?;
                        let diverge2 = walk_opt_expr(i.diverge, c)?;
                        Result::Ok(
                            Stmt::Local(
                                Box::new(pat2),
                                Some(LocalInit { expr: Box::new(expr2), diverge: diverge2 }),
                            ),
                        )
                    },
                    Option::None => Result::Ok(Stmt::Local(Box::new(pat2), None)),
                }
            },
            Stmt::Item(_) => Result::Err(Error::Unsupported),
            Stmt::Expr(e, semi) => {
                let e2 = ExprWalker::walk(*e, c)?;
                Result::Ok(Stmt::Expr(Box::new(e2), semi))
            },
            Stmt::Macro(mac) => {
                let mac2 = MacroWalker::walk(mac, c)?;
                Result::Ok(Stmt::Macro(mac2))
            },
        }
    }
}

/// Walk every statement of a list in order.
pub fn walk_stmt_list<C: Context>(l: List<Stmt>, c: &mut C) -> (r: Result<List<Stmt>, Error>)
    ensures
        match r {
            Result::Ok(l2) => walk_stmt_list_spec(*old(c), l) == Some((*final(c), l2)),
            Result::Err(_) => walk_stmt_list_spec(*old(c), l) is None,
        },
    decreases l,
{
    proof {
        reveal(walk_stmt_list_spec);
        reveal(walk_stmt_spec);
    }
    match l {
        List::Nil => Result::Ok(List::Nil),
        List::Cons(head, tail) => {
            let head2 = StatementWalker::walk(*head, c)?;
            let tail2 = walk_stmt_list(*tail, c)?;
            Result::Ok(List::Cons(Box::new(head2), Box::new(tail2)))
        },
    }
}

} // verus!
