//! The generic transformation pass: a caller-supplied context is run over a
//! declaration, a standalone type, a standalone expression, or a standalone
//! statement, through the same walker as the ready-made passes.

use crate::ast::{Expr, Stmt, Type};
use crate::error::Error;
use crate::items::item::{walk_item_spec, Item};
use crate::items::other_item::{OtherItem, OtherNode};
use crate::walkers::expr::{walk_expr_spec, ExprWalker};
use crate::walkers::statement::{walk_stmt_spec, StatementWalker};
use crate::walkers::type_::{walk_type_spec, TypeWalker};
use crate::walkers::Context;
use vstd::prelude::*;

verus! {

/// Apply the context to one declaration.
pub fn from_item<C: Context>(item: &mut Item, context: &mut C) -> (r: Result<(), Error>)
    ensures
        match r {
            Result::Ok(_) => walk_item_spec(*old(context), *old(item)) == Some(
                (*final(context), *final(item)),
            ),
            Result::Err(_) => walk_item_spec(*old(context), *old(item)) is None,
        },
{
    let mut taken = Item::Other(OtherItem { item: OtherNode::Verbatim(String::new()) });
    core::mem::swap(item, &mut taken);
    match taken.walk(context) {
        Result::Ok(walked) => {
            *item = walked;
            Result::Ok(())
        },
        Result::Err(e) => Result::Err(e),
    }
}

/// Apply the context to one standalone type.
pub fn from_type<C: Context>(type_: &mut Type, context: &mut C) -> (r: Result<(), Error>)
    ensures
        match r {
            Result::Ok(_) => walk_type_spec(*old(context), *old(type_)) == Some(
                (*final(context), *final(type_)),
            ),
            Result::Err(_) => walk_type_spec(*old(context), *old(type_)) is None,
        },
{
    let mut taken = Type::Infer;
    core::mem::swap(type_, &mut taken);
    match TypeWalker::walk(taken, context) {
        Result::Ok(walked) => {
            *type_ = walked;
            Result::Ok(())
        },
        Result::Err(e) => Result::Err(e),
    }
}

/// Apply the context to one standalone expression.
pub fn from_expr<C: Context>(expr: &mut Expr, context: &mut C) -> (r: Result<(), Error>)
    ensures
        match r {
            Result::Ok(_) => walk_expr_spec(*old(context), *old(expr)) == Some(
                (*final(context), *final(expr)),
            ),
            Result::Err(_) => walk_expr_spec(*old(context), *old(expr)) is None,
        },
{
    let mut taken = Expr::Verbatim(String::new());
    core::mem::swap(expr, &mut taken);
    match ExprWalker::walk(taken, context) {
        Result::Ok(walked) => {
            *expr = walked;
            Result::Ok(())
        },
        Result::Err(e) => Result::Err(e),
    }
}

/// Apply the context to one standalone statement.
pub fn from_stmt<C: Context>(stmt: &mut Stmt, context: &mut C) -> (r: Result<(), Error>)
    ensures
        match r {
            Result::Ok(_) => walk_stmt_spec(*old(context), *old(stmt)) == Some(
                (*final(context), *final(stmt)),
            ),
            Result::Err(_) => walk_stmt_spec(*old(context), *old(stmt)) is None,
        },
{
    let mut taken = Stmt::Item(String::new());
    core::mem::swap(stmt, &mut taken);
    match StatementWalker::walk(taken, context) {
        Result::Ok(walked) => {
            *stmt = walked;
            Result::Ok(())
        },
        Result::Err(e) => Result::Err(e),
    }
}

} // verus!
