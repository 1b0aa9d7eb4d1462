//! The rename pass: every identifier equal to `from` becomes `to`, and every
//! path segment whose name equals `from`, at any position, is replaced in
//! place.  Nested occurrences are reached because the walker visits every
//! segment's generic arguments before the path predicate runs.

use crate::ast::{Expr, Stmt, Type};
use crate::error::Error;
use crate::items::item::{walk_item_spec, Item};
use crate::items::other_item::{OtherItem, OtherNode};
use crate::list::List;
use crate::utils::path::{Path, PathSegment};
use crate::walkers::expr::{walk_expr_spec, ExprWalker};
use crate::walkers::type_::{walk_type_spec, TypeWalker};
use crate::walkers::Context;
use vstd::prelude::*;

verus! {

/// The context installed by the rename pass: a path predicate and an
/// identifier predicate over one `from`/`to` pair.
pub struct RenameContext {
    pub from: String,
    pub to: String,
}

/// Every segment whose name equals `from` renamed to `to`, arguments kept.
pub open spec fn spec_rename_segments(c: RenameContext, l: List<PathSegment>) -> List<PathSegment>
    decreases l,
{
    match l {
        List::Nil => List::Nil,
        List::Cons(head, tail) => {
            let seg2 = if head.ident@ == c.from@ {
                PathSegment { ident: c.to, arguments: head.arguments }
            } else {
                *head
            };
            List::Cons(Box::new(seg2), Box::new(spec_rename_segments(c, *tail)))
        },
    }
}

impl Context for RenameContext {
    open spec fn type_on(self) -> bool {
        false
    }

    open spec fn expr_on(self) -> bool {
        false
    }

    open spec fn stmt_on(self) -> bool {
        false
    }

    open spec fn path_on(self) -> bool {
        true
    }

    open spec fn ident_on(self) -> bool {
        true
    }

    open spec fn type_step(self, t: Type) -> (Self, Type, bool) {
        (self, t, false)
    }

    open spec fn expr_step(self, e: Expr) -> (Self, Expr, bool) {
        (self, e, false)
    }

    open spec fn stmt_step(self, s: Stmt) -> (Self, Stmt, bool) {
        (self, s, false)
    }

    open spec fn path_step(self, p: Path) -> (Self, Path, bool) {
        (self, Path { segments: spec_rename_segments(self, p.segments) }, true)
    }

    open spec fn ident_step(self, i: String) -> (Self, String, bool) {
        if i@ == self.from@ {
            (self, self.to, true)
        } else {
            (self, i, false)
        }
    }

    proof fn type_step_unhandled(c: Self, t: Type) {
    }

    proof fn expr_step_unhandled(c: Self, e: Expr) {
    }

    proof fn stmt_step_unhandled(c: Self, s: Stmt) {
    }

    fn has_type(&self) -> bool {
        false
    }

    fn has_expr(&self) -> bool {
        false
    }

    fn has_stmt(&self) -> bool {
        false
    }

    fn has_path(&self) -> bool {
        true
    }

    fn has_ident(&self) -> bool {
        true
    }

    fn apply_type(&mut self, t: Type) -> (Type, bool) {
        (t, false)
    }

    fn apply_expr(&mut self, e: Expr) -> (Expr, bool) {
        (e, false)
    }

    fn apply_stmt(&mut self, s: Stmt) -> (Stmt, bool) {
        (s, false)
    }

    fn apply_path(&mut self, p: Path) -> (Path, bool) {
        let segments2 = Self::rename_segments(self, p.segments);
        (Path { segments: segments2 }, true)
    }

    fn apply_ident(&mut self, i: String) -> (String, bool) {
        if i.eq(&self.from) {
            (self.to.clone(), true)
        } else {
            (i, false)
        }
    }
}

impl RenameContext {
    /// Replace the name of every segment equal to `from`, keeping arguments.
    fn rename_segments(&self, l: List<PathSegment>) -> (r: List<PathSegment>)
        ensures
            r == spec_rename_segments(*self, l),
        decreases l,
    {
        match l {
            List::Nil => List::Nil,
            List::Cons(head, tail) => {
                let seg = *head;
                let seg2 = if seg.ident.eq(&self.from) {
                    PathSegment { ident: self.to.clone(), arguments: seg.arguments }
                } else {
                    seg
                };
                let tail2 = Self::rename_segments(self, *tail);
                List::Cons(Box::new(seg2), Box::new(tail2))
            },
        }
    }
}

/// The context value that `from`/`to` install.
pub open spec fn rename_context_spec(from: String, to: String) -> RenameContext {
    RenameContext { from, to }
}

/// Build the rename context over one `from`/`to` pair.
pub fn create_context(from: &String, to: &String) -> (r: RenameContext)
    ensures
        r == rename_context_spec(*from, *to),
{
    RenameContext { from: from.clone(), to: to.clone() }
}

/// Rename every occurrence inside one declaration, its own name included.
pub fn from_item(item: &mut Item, from: &String, to: &String) -> (r: Result<(), Error>)
    ensures
        match r {
            Result::Ok(_) => match walk_item_spec(rename_context_spec(*from, *to), *old(item)) {
                Option::Some((cf, out)) => *final(item) == out,
                Option::None => false,
            },
            Result::Err(_) => walk_item_spec(rename_context_spec(*from, *to), *old(item)) is None,
        },
{
    let mut ctx = create_context(from, to);
    let mut taken = Item::Other(OtherItem { item: OtherNode::Verbatim(String::new()) });
    core::mem::swap(item, &mut taken);
    match taken.walk(&mut ctx) {
        Result::Ok(walked) => {
            *item = walked;
            Result::Ok(())
        },
        Result::Err(e) => Result::Err(e),
    }
}

/// Rename every occurrence inside one standalone type.
pub fn from_type(type_: &mut Type, from: &String, to: &String) -> (r: Result<(), Error>)
    ensures
        match r {
            Result::Ok(_) => match walk_type_spec(rename_context_spec(*from, *to), *old(type_)) {
                Option::Some((cf, out)) => *final(type_) == out,
                Option::None => false,
            },
            Result::Err(_) => walk_type_spec(rename_context_spec(*from, *to), *old(type_)) is None,
        },
{
    let mut ctx = create_context(from, to);
    let mut taken = Type::Infer;
    core::mem::swap(type_, &mut taken);
    match TypeWalker::walk(taken, &mut ctx) {
        Result::Ok(walked) => {
            *type_ = walked;
            Result::Ok(())
        },
        Result::Err(e) => Result::Err(e),
    }
}

/// Rename every occurrence inside one standalone expression.
pub fn from_expr(expr: &mut Expr, from: &String, to: &String) -> (r: Result<(), Error>)
    ensures
        match r {
            Result::Ok(_) => match walk_expr_spec(rename_context_spec(*from, *to), *old(expr)) {
                Option::Some((cf, out)) => *final(expr) == out,
                Option::None => false,
            },
            Result::Err(_) => walk_expr_spec(rename_context_spec(*from, *to), *old(expr)) is None,
        },
{
    let mut ctx = create_context(from, to);
    let mut taken = Expr::Verbatim(String::new());
    core::mem::swap(expr, &mut taken);
    match ExprWalker::walk(taken, &mut ctx) {
        Result::Ok(walked) => {
            *expr = walked;
            Result::Ok(())
        },
        Result::Err(e) => Result::Err(e),
    }
}

} // verus!
