//! The traversal engine: one walker per syntax category, each consulting the
//! transformation context before descending.
//!
//! A context installs up to five rewrite predicates, one per node category
//! (type, expression, statement, path, identifier).  A predicate receives a
//! node and reports `true` for "handled; do not descend into this node's
//! children" or `false` for "unchanged; continue default recursion".
//!
//! Every walker has an exact contract: the walked tree and the context state
//! after the call equal a specification-level walk (`walk_*_spec`) that
//! mirrors the traversal order node kind by node kind.

pub mod angle_bracketed_generic_arguments;
pub mod expr;
pub mod fields;
pub mod generic_argument;
pub mod generic_param;
pub mod generics;
pub mod macro_;
pub mod path;
pub mod pattern;
pub mod signature;
pub mod statement;
pub mod type_;
pub mod type_param_bound;
pub mod where_clause;

use crate::ast::{Expr, Stmt, Type};
use crate::utils::path::Path;
use vstd::prelude::*;

verus! {

/// A transformation context: up to five stateful rewrite predicates, one per
/// node category.
///
/// Each category has a presence flag (`*_on`), a specification of one
/// predicate application (`*_step`, giving the context state after the call,
/// the rewritten node, and whether the node was handled), and the executable
/// predicate (`apply_*`) proved to follow that specification.  The type,
/// expression and statement predicates short-circuit the walk at node entry,
/// so for these a predicate that reports a node unhandled must have left it
/// unchanged: the walker then descends into the node it already holds.
pub trait Context: Sized {
    /// Whether a type predicate is installed.
    spec fn type_on(self) -> bool;

    /// Whether an expression predicate is installed.
    spec fn expr_on(self) -> bool;

    /// Whether a statement predicate is installed.
    spec fn stmt_on(self) -> bool;

    /// Whether a path predicate is installed.
    spec fn path_on(self) -> bool;

    /// Whether an identifier predicate is installed.
    spec fn ident_on(self) -> bool;

    /// One application of the type predicate.
    spec fn type_step(self, t: Type) -> (Self, Type, bool);

    /// One application of the expression predicate.
    spec fn expr_step(self, e: Expr) -> (Self, Expr, bool);

    /// One application of the statement predicate.
    spec fn stmt_step(self, s: Stmt) -> (Self, Stmt, bool);

    /// One application of the path predicate.
    spec fn path_step(self, p: Path) -> (Self, Path, bool);

    /// One application of the identifier predicate.
    spec fn ident_step(self, i: String) -> (Self, String, bool);

    /// A type predicate that reports a node unhandled leaves it unchanged.
    proof fn type_step_unhandled(c: Self, t: Type)
        ensures
            !c.type_step(t).2 ==> c.type_step(t).1 == t,
    ;

    /// An expression predicate that reports a node unhandled leaves it
    /// unchanged.
    proof fn expr_step_unhandled(c: Self, e: Expr)
        ensures
            !c.expr_step(e).2 ==> c.expr_step(e).1 == e,
    ;

    /// A statement predicate that reports a node unhandled leaves it
    /// unchanged.
    proof fn stmt_step_unhandled(c: Self, s: Stmt)
        ensures
            !c.stmt_step(s).2 ==> c.stmt_step(s).1 == s,
    ;

    /// Whether a type predicate is installed, computed.
    fn has_type(&self) -> (r: bool)
        ensures
            r == self.type_on(),
    ;

    /// Whether an expression predicate is installed, computed.
    fn has_expr(&self) -> (r: bool)
        ensures
            r == self.expr_on(),
    ;

    /// Whether a statement predicate is installed, computed.
    fn has_stmt(&self) -> (r: bool)
        ensures
            r == self.stmt_on(),
    ;

    /// Whether a path predicate is installed, computed.
    fn has_path(&self) -> (r: bool)
        ensures
            r == self.path_on(),
    ;

    /// Whether an identifier predicate is installed, computed.
    fn has_ident(&self) -> (r: bool)
        ensures
            r == self.ident_on(),
    ;

    /// Apply the type predicate.
    fn apply_type(&mut self, t: Type) -> (r: (Type, bool))
        ensures
            ({
                let (c2, t2, handled) = old(self).type_step(t);
                *final(self) == c2 && r.0 == t2 && r.1 == handled
            }),
    ;

    /// Apply the expression predicate.
    fn apply_expr(&mut self, e: Expr) -> (r: (Expr, bool))
        ensures
            ({
                let (c2, e2, handled) = old(self).expr_step(e);
                *final(self) == c2 && r.0 == e2 && r.1 == handled
            }),
    ;

    /// Apply the statement predicate.
    fn apply_stmt(&mut self, s: Stmt) -> (r: (Stmt, bool))
        ensures
            ({
                let (c2, s2, handled) = old(self).stmt_step(s);
                *final(self) == c2 && r.0 == s2 && r.1 == handled
            }),
    ;

    /// Apply the path predicate.
    fn apply_path(&mut self, p: Path) -> (r: (Path, bool))
        ensures
            ({
                let (c2, p2, handled) = old(self).path_step(p);
                *final(self) == c2 && r.0 == p2 && r.1 == handled
            }),
    ;

    /// Apply the identifier predicate.
    fn apply_ident(&mut self, i: String) -> (r: (String, bool))
        ensures
            ({
                let (c2, i2, handled) = old(self).ident_step(i);
                *final(self) == c2 && r.0 == i2 && r.1 == handled
            }),
    ;
}

/// What walking one identifier does: the identifier predicate is applied at
/// the use site when installed.
pub open spec fn walk_ident_spec<C: Context>(c: C, i: String) -> (C, String) {
    if c.ident_on() {
        let (c2, i2, handled) = c.ident_step(i);
        (c2, i2)
    } else {
        (c, i)
    }
}

/// What walking an optional identifier (a label, a lifetime) does.
pub open spec fn walk_opt_ident_spec<C: Context>(c: C, i: Option<String>) -> (C, Option<String>) {
    match i {
        Some(name) => {
            let (c2, name2) = walk_ident_spec(c, name);
            (c2, Some(name2))
        },
        None => (c, None),
    }
}

/// What walking a list of identifiers does: each is handed to the
/// identifier predicate in order.
pub open spec fn walk_ident_list_spec<C: Context>(c: C, l: crate::list::List<String>) -> (
    C,
    crate::list::List<String>,
)
    decreases l,
{
    match l {
        crate::list::List::Nil => (c, crate::list::List::Nil),
        crate::list::List::Cons(head, tail) => {
            let (c1, head2) = walk_ident_spec(c, *head);
            let (c2, tail2) = walk_ident_list_spec(c1, *tail);
            (c2, crate::list::List::Cons(Box::new(head2), Box::new(tail2)))
        },
    }
}

/// Hand every identifier of a list to the identifier predicate.
pub fn walk_ident_list<C: Context>(l: crate::list::List<String>, c: &mut C) -> (r: crate::list::List<
    String,
>)
    ensures
        walk_ident_list_spec(*old(c), l) == (*final(c), r),
    decreases l,
{
    match l {
        crate::list::List::Nil => crate::list::List::Nil,
        crate::list::List::Cons(head, tail) => {
            let head2 = walk_ident(*head, c);
            let tail2 = walk_ident_list(*tail, c);
            crate::list::List::Cons(Box::new(head2), Box::new(tail2))
        },
    }
}

/// Hand one identifier to the identifier predicate.
pub fn walk_ident<C: Context>(i: String, c: &mut C) -> (r: String)
    ensures
        walk_ident_spec(*old(c), i) == (*final(c), r),
{
    if c.has_ident() {
        let (i2, _) = c.apply_ident(i);
        i2
    } else {
        i
    }
}

/// Hand an optional identifier to the identifier predicate.
pub fn walk_opt_ident<C: Context>(i: Option<String>, c: &mut C) -> (r: Option<String>)
    ensures
        walk_opt_ident_spec(*old(c), i) == (*final(c), r),
{
    match i {
        Some(name) => {
            let name2 = walk_ident(name, c);
            Some(name2)
        },
        None => None,
    }
}

} // verus!
