//! Walks an expression node: the expression predicate is consulted at entry,
//! then every structurally owned child of the matched kind is descended into.

use crate::ast::{Arm, Expr, FieldValue, Member};
use crate::error::Error;
use crate::list::List;
use crate::walkers::macro_::{walk_macro_spec, MacroWalker};
use crate::walkers::path::{walk_path_spec, PathWalker};
use crate::walkers::pattern::{walk_pat_list, walk_pat_list_spec, walk_pat_spec, PatternWalker};
use crate::walkers::statement::{walk_stmt_list, walk_stmt_list_spec};
use crate::walkers::type_::{walk_opt_type, walk_opt_type_spec, walk_type_spec, TypeWalker};
use crate::walkers::{
    walk_ident, walk_ident_spec, walk_opt_ident, walk_opt_ident_spec, Context,
};
use vstd::prelude::*;

verus! {

/// What walking a member selector does: a named member is handed to the
/// identifier predicate; a positional member passes through.
pub open spec fn walk_member_spec<C: Context>(c: C, m: Member) -> (C, Member) {
    match m {
        Member::Named(name) => {
            let (c1, name2) = walk_ident_spec(c, name);
            (c1, Member::Named(name2))
        },
        Member::Unnamed(index) => (c, Member::Unnamed(index)),
    }
}

/// What walking an expression does: one application of the expression
/// predicate, then, unless the node was handled, default recursion into
/// every owned child, in the fixed order given below per node kind.
#[verifier::opaque]
pub open spec fn walk_expr_spec<C: Context>(c: C, e: Expr) -> Option<(C, Expr)>
    decreases e,
{
    let (c0, e0, handled) = if c.expr_on() {
        c.expr_step(e)
    } else {
        (c, e, false)
    };
    if handled {
        Some((c0, e0))
    } else {
        match e {
            Expr::Array(elems) => match walk_expr_list_spec(c0, elems) {
                Option::None => None,
                Option::Some((c1, elems2)) => Some((c1, Expr::Array(elems2))),
            },
            Expr::Assign(left, right) => match walk_expr_spec(c0, *left) {
                Option::None => None,
                Option::Some((c1, left2)) => match walk_expr_spec(c1, *right) {
                    Option::None => None,
                    Option::Some((c2, right2)) => Some(
                        (c2, Expr::Assign(Box::new(left2), Box::new(right2))),
                    ),
                },
            },
            Expr::Async(body) => match walk_stmt_list_spec(c0, body) {
                Option::None => None,
                Option::Some((c1, body2)) => Some((c1, Expr::Async(body2))),
            },
            Expr::Await(base) => match walk_expr_spec(c0, *base) {
                Option::None => None,
                Option::Some((c1, base2)) => Some((c1, Expr::Await(Box::new(base2)))),
            },
            Expr::Binary(left, op, right) => match walk_expr_spec(c0, *left) {
                Option::None => None,
                Option::Some((c1, left2)) => match walk_expr_spec(c1, *right) {
                    Option::None => None,
                    Option::Some((c2, right2)) => Some(
                        (c2, Expr::Binary(Box::new(left2), op, Box::new(right2))),
                    ),
                },
            },
            Expr::Block(label, body) => match walk_stmt_list_spec(c0, body) {
                Option::None => None,
                Option::Some((c1, body2)) => {
                    let (c2, label2) = walk_opt_ident_spec(c1, label);
                    Some((c2, Expr::Block(label2, body2)))
                },
            },
            Expr::Break(label, value) => {
                let (c1, label2) = walk_opt_ident_spec(c0, label);
                match walk_opt_expr_spec(c1, value) {
                    Option::None => None,
                    Option::Some((c2, value2)) => Some((c2, Expr::Break(label2, value2))),
                }
            },
            Expr::Call(func, args) => match walk_expr_list_spec(c0, args) {
                Option::None => None,
                Option::Some((c1, args2)) => match walk_expr_spec(c1, *func) {
                    Option::None => None,
                    Option::Some((c2, func2)) => Some(
                        (c2, Expr::Call(Box::new(func2), args2)),
                    ),
                },
            },
            Expr::Cast(value, ty) => match walk_type_spec(c0, *ty) {
                Option::None => None,
                Option::Some((c1, ty2)) => match walk_expr_spec(c1, *value) {
                    Option::None => None,
                    Option::Some((c2, value2)) => Some(
                        (c2, Expr::Cast(Box::new(value2), Box::new(ty2))),
                    ),
                },
            },
            Expr::Closure(inputs, output, body) => match walk_expr_spec(c0, *body) {
                Option::None => None,
                Option::Some((c1, body2)) => match walk_pat_list_spec(c1, inputs) {
                    Option::None => None,
                    Option::Some((c2, inputs2)) => match walk_opt_type_spec(c2, output) {
                        Option::None => None,
                        Option::Some((c3, output2)) => Some(
                            (c3, Expr::Closure(inputs2, output2, Box::new(body2))),
                        ),
                    },
                },
            },
            Expr::ConstBlock(body) => match walk_stmt_list_spec(c0, body) {
                Option::None => None,
                Option::Some((c1, body2)) => Some((c1, Expr::ConstBlock(body2))),
            },
            Expr::Continue(label) => {
                let (c1, label2) = walk_opt_ident_spec(c0, label);
                Some((c1, Expr::Continue(label2)))
            },
            Expr::Field(base, member) => match walk_expr_spec(c0, *base) {
                Option::None => None,
                Option::Some((c1, base2)) => {
                    let (c2, member2) = walk_member_spec(c1, member);
                    Some((c2, Expr::Field(Box::new(base2), member2)))
                },
            },
            Expr::ForLoop(label, pat, iter, body) => {
                let (c1, label2) = walk_opt_ident_spec(c0, label);
                match walk_pat_spec(c1, *pat) {
                    Option::None => None,
                    Option::Some((c2, pat2)) => match walk_expr_spec(c2, *iter) {
                        Option::None => None,
                        Option::Some((c3, iter2)) => match walk_stmt_list_spec(c3, body) {
                            Option::None => None,
                            Option::Some((c4, body2)) => Some(
                                (
                                    c4,
                                    Expr::ForLoop(
                                        label2,
                                        Box::new(pat2),
                                        Box::new(iter2),
                                        body2,
                                    ),
                                ),
                            ),
                        },
                    },
                }
            },
            Expr::Group(inner) => match walk_expr_spec(c0, *inner) {
                Option::None => None,
                Option::Some((c1, inner2)) => Some((c1, Expr::Group(Box::new(inner2)))),
            },
            Expr::If(cond, then_branch, else_branch) => match walk_expr_spec(c0, *cond) {
                Option::None => None,
                Option::Some((c1, cond2)) => match walk_stmt_list_spec(c1, then_branch) {
                    Option::None => None,
                    Option::Some((c2, then2)) => match walk_opt_expr_spec(c2, else_branch) {
                        Option::None => None,
                        Option::Some((c3, else2)) => Some(
                            (c3, Expr::If(Box::new(cond2), then2, else2)),
                        ),
                    },
                },
            },
            Expr::Index(base, index) => match walk_expr_spec(c0, *index) {
                Option::None => None,
                Option::Some((c1, index2)) => match walk_expr_spec(c1, *base) {
                    Option::None => None,
                    Option::Some((c2, base2)) => Some(
                        (c2, Expr::Index(Box::new(base2), Box::new(index2))),
                    ),
                },
            },
            Expr::Let(pat, value) => match walk_pat_spec(c0, *pat) {
                Option::None => None,
                Option::Some((c1, pat2)) => match walk_expr_spec(c1, *value) {
                    Option::None => None,
                    Option::Some((c2, value2)) => Some(
                        (c2, Expr::Let(Box::new(pat2), Box::new(value2))),
                    ),
                },
            },
            Expr::Lit(text) => Some((c0, Expr::Lit(text))),
            Expr::Loop(label, body) => {
                let (c1, label2) = walk_opt_ident_spec(c0, label);
                match walk_stmt_list_spec(c1, body) {
                    Option::None => None,
                    Option::Some((c2, body2)) => Some((c2, Expr::Loop(label2, body2))),
                }
            },
            Expr::Macro(mac) => match walk_macro_spec(c0, mac) {
                Option::None => None,
                Option::Some((c1, mac2)) => Some((c1, Expr::Macro(mac2))),
            },
            Expr::Match(scrutinee, arms) => match walk_expr_spec(c0, *scrutinee) {
                Option::None => None,
                Option::Some((c1, scrutinee2)) => match walk_arm_list_spec(c1, arms) {
                    Option::None => None,
                    Option::Some((c2, arms2)) => Some(
                        (c2, Expr::Match(Box::new(scrutinee2), arms2)),
                    ),
                },
            },
            Expr::MethodCall(receiver, method, args) => {
                let (c1, method2) = walk_ident_spec(c0, method);
                match walk_expr_spec(c1, *receiver) {
                    Option::None => None,
                    Option::Some((c2, receiver2)) => match walk_expr_list_spec(c2, args) {
                        Option::None => None,
                        Option::Some((c3, args2)) => Some(
                            (c3, Expr::MethodCall(Box::new(receiver2), method2, args2)),
                        ),
                    },
                }
            },
            Expr::Paren(inner) => match walk_expr_spec(c0, *inner) {
                Option::None => None,
                Option::Some((c1, inner2)) => Some((c1, Expr::Paren(Box::new(inner2)))),
            },
            Expr::Path(qself, path) => match walk_opt_type_spec(c0, qself) {
                Option::None => None,
                Option::Some((c1, qself2)) => match walk_path_spec(c1, path) {
                    Option::None => None,
                    Option::Some((c2, path2)) => Some((c2, Expr::Path(qself2, path2))),
                },
            },
            Expr::Range(start, end) => match walk_opt_expr_spec(c0, start) {
                Option::None => None,
                Option::Some((c1, start2)) => match walk_opt_expr_spec(c1, end) {
                    Option::None => None,
                    Option::Some((c2, end2)) => Some((c2, Expr::Range(start2, end2))),
                },
            },
            Expr::RawAddr(inner) => match walk_expr_spec(c0, *inner) {
                Option::None => None,
                Option::Some((c1, inner2)) => Some((c1, Expr::RawAddr(Box::new(inner2)))),
            },
            Expr::Reference(inner) => match walk_expr_spec(c0, *inner) {
                Option::None => None,
                Option::Some((c1, inner2)) => Some((c1, Expr::Reference(Box::new(inner2)))),
            },
            Expr::Repeat(value, len) => match walk_expr_spec(c0, *value) {
                Option::None => None,
                Option::Some((c1, value2)) => match walk_expr_spec(c1, *len) {
                    Option::None => None,
                    Option::Some((c2, len2)) => Some(
                        (c2, Expr::Repeat(Box::new(value2), Box::new(len2))),
                    ),
                },
            },
            Expr::Return(value) => match walk_opt_expr_spec(c0, value) {
                Option::None => None,
                Option::Some((c1, value2)) => Some((c1, Expr::Return(value2))),
            },
            Expr::Struct(qself, path, fields, rest) => match walk_opt_type_spec(c0, qself) {
                Option::None => None,
                Option::Some((c1, qself2)) => match walk_path_spec(c1, path) {
                    Option::None => None,
                    Option::Some((c2, path2)) => match walk_field_value_list_spec(c2, fields) {
                        Option::None => None,
                        Option::Some((c3, fields2)) => match walk_opt_expr_spec(c3, rest) {
                            Option::None => None,
                            Option::Some((c4, rest2)) => Some(
                                (c4, Expr::Struct(qself2, path2, fields2, rest2)),
                            ),
                        },
                    },
                },
            },
            Expr::Try(inner) => match walk_expr_spec(c0, *inner) {
                Option::None => None,
                Option::Some((c1, inner2)) => Some((c1, Expr::Try(Box::new(inner2)))),
            },
            Expr::TryBlock(body) => match walk_stmt_list_spec(c0, body) {
                Option::None => None,
                Option::Some((c1, body2)) => Some((c1, Expr::TryBlock(body2))),
            },
            Expr::Tuple(elems) => match walk_expr_list_spec(c0, elems) {
                Option::None => None,
                Option::Some((c1, elems2)) => Some((c1, Expr::Tuple(elems2))),
            },
            Expr::Unary(op, inner) => match walk_expr_spec(c0, *inner) {
                Option::None => None,
                Option::Some((c1, inner2)) => Some((c1, Expr::Unary(op, Box::new(inner2)))),
            },
            Expr::Unsafe(body) => match walk_stmt_list_spec(c0, body) {
                Option::None => None,
                Option::Some((c1, body2)) => Some((c1, Expr::Unsafe(body2))),
            },
            Expr::While(label, cond, body) => {
                let (c1, label2) = walk_opt_ident_spec(c0, label);
                match walk_expr_spec(c1, *cond) {
                    Option::None => None,
                    Option::Some((c2, cond2)) => match walk_stmt_list_spec(c2, body) {
                        Option::None => None,
                        Option::Some((c3, body2)) => Some(
                            (c3, Expr::While(label2, Box::new(cond2), body2)),
                        ),
                    },
                }
            },
            Expr::Yield(value) => match walk_opt_expr_spec(c0, value) {
                Option::None => None,
                Option::Some((c1, value2)) => Some((c1, Expr::Yield(value2))),
            },
            Expr::Verbatim(tokens) => Some((c0, Expr::Verbatim(tokens))),
        }
    }
}

/// Walks every expression of a list in order.
#[verifier::opaque]
pub open spec fn walk_expr_list_spec<C: Context>(c: C, l: List<Expr>) -> Option<(C, List<Expr>)>
    decreases l,
{
    match l {
        List::Nil => Some((c, List::Nil)),
        List::Cons(head, tail) => match walk_expr_spec(c, *head) {
            Option::None => None,
            Option::Some((c1, head2)) => match walk_expr_list_spec(c1, *tail) {
                Option::None => None,
                Option::Some((c2, tail2)) => Some(
                    (c2, List::Cons(Box::new(head2), Box::new(tail2))),
                ),
            },
        },
    }
}

/// Walks an optional expression.
#[verifier::opaque]
pub open spec fn walk_opt_expr_spec<C: Context>(c: C, e: Option<Box<Expr>>) -> Option<
    (C, Option<Box<Expr>>),
>
    decreases e,
{
    match e {
        Option::Some(inner) => match walk_expr_spec(c, *inner) {
            Option::None => None,
            Option::Some((c1, inner2)) => Some((c1, Some(Box::new(inner2)))),
        },
        Option::None => Some((c, None)),
    }
}

/// Walks every arm of a match in order: pattern, body, then guard.
#[verifier::opaque]
pub open spec fn walk_arm_list_spec<C: Context>(c: C, l: List<Arm>) -> Option<(C, List<Arm>)>
    decreases l,
{
    match l {
        List::Nil => Some((c, List::Nil)),
        List::Cons(head, tail) => {
            let arm = *head;
            match walk_pat_spec(c, arm.pat) {
                Option::None => None,
                Option::Some((c1, pat2)) => match walk_expr_spec(c1, *arm.body) {
                    Option::None => None,
                    Option::Some((c2, body2)) => match walk_opt_expr_spec(c2, arm.guard) {
                        Option::None => None,
                        Option::Some((c3, guard2)) => match walk_arm_list_spec(c3, *tail) {
                            Option::None => None,
                            Option::Some((c4, tail2)) => Some(
                                (
                                    c4,
                                    List::Cons(
                                        Box::new(
                                            Arm {
                                                pat: pat2,
                                                guard: guard2,
                                                body: Box::new(body2),
                                            },
                                        ),
                                        Box::new(tail2),
                                    ),
                                ),
                            ),
                        },
                    },
                },
            }
        },
    }
}

/// Walks every field of a struct literal in order.
#[verifier::opaque]
pub open spec fn walk_field_value_list_spec<C: Context>(c: C, l: List<FieldValue>) -> Option<
    (C, List<FieldValue>),
>
    decreases l,
{
    match l {
        List::Nil => Some((c, List::Nil)),
        List::Cons(head, tail) => {
            let field = *head;
            match walk_expr_spec(c, field.expr) {
                Option::None => None,
                Option::Some((c1, expr2)) => match walk_field_value_list_spec(c1, *tail) {
                    Option::None => None,
                    Option::Some((c2, tail2)) => Some(
                        (
                            c2,
                            List::Cons(
                                Box::new(FieldValue { member: field.member, expr: expr2 }),
                                Box::new(tail2),
                            ),
                        ),
                    ),
                },
            }
        },
    }
}

/// The walker for expression nodes.
pub struct ExprWalker;

impl ExprWalker {
    /// Consult the expression predicate, then recurse into every owned child.
    pub fn walk<C: Context>(expr: Expr, c: &mut C) -> (r: Result<Expr, Error>)
        ensures
            match r {
                Result::Ok(e2) => walk_expr_spec(*old(c), expr) == Some((*final(c), e2)),
                Result::Err(_) => walk_expr_spec(*old(c), expr) is None,
            },
        decreases expr,
    {
        proof {
            reveal(walk_expr_spec);
            reveal(walk_expr_list_spec);
            reveal(walk_stmt_list_spec);
            reveal(walk_opt_expr_spec);
            reveal(walk_pat_spec);
            reveal(walk_opt_type_spec);
            reveal(walk_type_spec);
            reveal(walk_path_spec);
            reveal(walk_macro_spec);
            reveal(walk_arm_list_spec);
            reveal(walk_field_value_list_spec);
        }
        let ghost c_in = *c;
        let ghost e_in = expr;
        let (e0, handled) = if c.has_expr() {
            c.apply_expr(expr)
        } else {
            (expr, false)
        };
        if handled {
            return Result::Ok(e0);
        }
        proof {
            C::expr_step_unhandled(c_in, e_in);
            assert(e0 == e_in);
        }
        match e0 {
            Expr::Array(elems) => {
                let elems2 = walk_expr_list(elems, c)?;
                Result::Ok(Expr::Array(elems2))
            },
            Expr::Assign(left, right) => {
                let left2 = ExprWalker::walk(*left, c)?;
                let right2 = ExprWalker::walk(*right, c)?;
                Result::Ok(Expr::Assign(Box::new(left2), Box::new(right2)))
            },
            Expr::Async(body) => {
                let body2 = walk_stmt_list(body, c)?;
                Result::Ok(Expr::Async(body2))
            },
            Expr::Await(base) => {
                let base2 = ExprWalker::walk(*base, c)?;
                Result::Ok(Expr::Await(Box::new(base2)))
            },
            Expr::Binary(left, op, right) => {
                let left2 = ExprWalker::walk(*left, c)?;
                let right2 = ExprWalker::walk(*right, c)?;
                Result::Ok(Expr::Binary(Box::new(left2), op, Box::new(right2)))
            },
            Expr::Block(label, body) => {
                let body2 = walk_stmt_list(body, c)?;
                let label2 = walk_opt_ident(label, c);
                Result::Ok(Expr::Block(label2, body2))
            },
            Expr::Break(label, value) => {
                let label2 = walk_opt_ident(label, c);
                let value2 = walk_opt_expr(value, c)?;
                Result::Ok(Expr::Break(label2, value2))
            },
            Expr::Call(func, args) => {
                let args2 = walk_expr_list(args, c)?;
                let func2 = ExprWalker::walk(*func, c)?;
                Result::Ok(Expr::Call(Box::new(func2), args2))
            },
            Expr::Cast(value, ty) => {
                let ty2 = TypeWalker::walk(*ty, c)?;
                let value2 = ExprWalker::walk(*value, c)?;
                Result::Ok(Expr::Cast(Box::new(value2), Box::new(ty2)))
            },
            Expr::Closure(inputs, output, body) => {
                let body2 = ExprWalker::walk(*body, c)?;
                let inputs2 = walk_pat_list(inputs, c)?;
                let output2 = walk_opt_type(output, c)?;
                Result::Ok(Expr::Closure(inputs2, output2, Box::new(body2)))
            },
            Expr::ConstBlock(body) => {
                let body2 = walk_stmt_list(body, c)?;
                Result::Ok(Expr::ConstBlock(body2))
            },
            Expr::Continue(label) => {
                let label2 = walk_opt_ident(label, c);
                Result::Ok(Expr::Continue(label2))
            },
            Expr::Field(base, member) => {
                let base2 = ExprWalker::walk(*base, c)?;
                let member2 = walk_member(member, c);
                Result::Ok(Expr::Field(Box::new(base2), member2))
            },
            Expr::ForLoop(label, pat, iter, body) => {
                let label2 = walk_opt_ident(label, c);
                let pat2 = PatternWalker::walk(*pat, c)?;
                let iter2 = ExprWalker::walk(*iter, c)?;
                let body2 = walk_stmt_list(body, c)?;
                Result::Ok(Expr::ForLoop(label2, Box::new(pat2), Box::new(iter2), body2))
            },
            Expr::Group(inner) => {
                let inner2 = ExprWalker::walk(*inner, c)?;
                Result::Ok(Expr::Group(Box::new(inner2)))
            },
            Expr::If(cond, then_branch, else_branch) => {
                let cond2 = ExprWalker::walk(*cond, c)?;
                let then2 = walk_stmt_list(then_branch, c)?;
                let else2 = walk_opt_expr(else_branch, c)?;
                Result::Ok(Expr::If(Box::new(cond2), then2, else2))
            },
            Expr::Index(base, index) => {
                let index2 = ExprWalker::walk(*index, c)?;
                let base2 = ExprWalker::walk(*base, c)?;
                Result::Ok(Expr::Index(Box::new(base2), Box::new(index2)))
            },
            Expr::Let(pat, value) => {
                let pat2 = PatternWalker::walk(*pat, c)?;
                let value2 = ExprWalker::walk(*value, c)?;
                Result::Ok(Expr::Let(Box::new(pat2), Box::new(value2)))
            },
            Expr::Lit(text) => Result::Ok(Expr::Lit(text)),
            Expr::Loop(label, body) => {
                let label2 = walk_opt_ident(label, c);
                let body2 = walk_stmt_list(body, c)?;
                Result::Ok(Expr::Loop(label2, body2))
            },
            Expr::Macro(mac) => {
                let mac2 = MacroWalker::walk(mac, c)?;
                Result::Ok(Expr::Macro(mac2))
            },
            Expr::Match(scrutinee, arms) => {
                let scrutinee2 = ExprWalker::walk(*scrutinee, c)?;
                let arms2 = walk_arm_list(arms, c)?;
                Result::Ok(Expr::Match(Box::new(scrutinee2), arms2))
            },
            Expr::MethodCall(receiver, method, args) => {
                let method2 = walk_ident(method, c);
                let receiver2 = ExprWalker::walk(*receiver, c)?;
                let args2 = walk_expr_list(args, c)?;
                Result::Ok(Expr::MethodCall(Box::new(receiver2), method2, args2))
            },
            Expr::Paren(inner) => {
                let inner2 = ExprWalker::walk(*inner, c)?;
                Result::Ok(Expr::Paren(Box::new(inner2)))
            },
            Expr::Path(qself, path) => {
                let qself2 = walk_opt_type(qself, c)?;
                let path2 = PathWalker::walk(path, c)?;
                Result::Ok(Expr::Path(qself2, path2))
            },
            Expr::Range(start, end) => {
                let start2 = walk_opt_expr(start, c)?;
                let end2 = walk_opt_expr(end, c)?;
                Result::Ok(Expr::Range(start2, end2))
            },
            Expr::RawAddr(inner) => {
                let inner2 = ExprWalker::walk(*inner, c)?;
                Result::Ok(Expr::RawAddr(Box::new(inner2)))
            },
            Expr::Reference(inner) => {
                let inner2 = ExprWalker::walk(*inner, c)?;
                Result::Ok(Expr::Reference(Box::new(inner2)))
            },
            Expr::Repeat(value, len) => {
                let value2 = ExprWalker::walk(*value, c)?;
                let len2 = ExprWalker::walk(*len, c)?;
                Result::Ok(Expr::Repeat(Box::new(value2), Box::new(len2)))
            },
            Expr::Return(value) => {
                let value2 = walk_opt_expr(value, c)?;
                Result::Ok(Expr::Return(value2))
            },
            Expr::Struct(qself, path, fields, rest) => {
                let qself2 = walk_opt_type(qself, c)?;
                let path2 = PathWalker::walk(path, c)?;
                let fields2 = walk_field_value_list(fields, c)?;
                let rest2 = walk_opt_expr(rest, c)?;
                Result::Ok(Expr::Struct(qself2, path2, fields2, rest2))
            },
            Expr::Try(inner) => {
                let inner2 = ExprWalker::walk(*inner, c)?;
                Result::Ok(Expr::Try(Box::new(inner2)))
            },
            Expr::TryBlock(body) => {
                let body2 = walk_stmt_list(body, c)?;
                Result::Ok(Expr::TryBlock(body2))
            },
            Expr::Tuple(elems) => {
                let elems2 = walk_expr_list(elems, c)?;
                Result::Ok(Expr::Tuple(elems2))
            },
            Expr::Unary(op, inner) => {
                let inner2 = ExprWalker::walk(*inner, c)?;
                Result::Ok(Expr::Unary(op, Box::new(inner2)))
            },
            Expr::Unsafe(body) => {
                let body2 = walk_stmt_list(body, c)?;
                Result::Ok(Expr::Unsafe(body2))
            },
            Expr::While(label, cond, body) => {
                let label2 = walk_opt_ident(label, c);
                let cond2 = ExprWalker::walk(*cond, c)?;
                let body2 = walk_stmt_list(body, c)?;
                Result::Ok(Expr::While(label2, Box::new(cond2), body2))
            },
            Expr::Yield(value) => {
                let value2 = walk_opt_expr(value, c)?;
                Result::Ok(Expr::Yield(value2))
            },
            Expr::Verbatim(tokens) => Result::Ok(Expr::Verbatim(tokens)),
        }
    }
}

/// Hand a member selector's name, if any, to the identifier predicate.
pub fn walk_member<C: Context>(m: Member, c: &mut C) -> (r: Member)
    ensures
        walk_member_spec(*old(c), m) == (*final(c), r),
{
    match m {
        Member::Named(name) => {
            let name2 = walk_ident(name, c);
            Member::Named(name2)
        },
        Member::Unnamed(index) => Member::Unnamed(index),
    }
}

/// Walk every expression of a list in order.
pub fn walk_expr_list<C: Context>(l: List<Expr>, c: &mut C) -> (r: Result<List<Expr>, Error>)
    ensures
        match r {
            Result::Ok(l2) => walk_expr_list_spec(*old(c), l) == Some((*final(c), l2)),
            Result::Err(_) => walk_expr_list_spec(*old(c), l) is None,
        },
    decreases l,
{
    proof {
        reveal(walk_expr_list_spec);
        reveal(walk_expr_spec);
    }
    match l {
        List::Nil => Result::Ok(List::Nil),
        List::Cons(head, tail) => {
            let head2 = ExprWalker::walk(*head, c)?;
            let tail2 = walk_expr_list(*tail, c)?;
            Result::Ok(List::Cons(Box::new(head2), Box::new(tail2)))
        },
    }
}

/// Walk an optional expression.
pub fn walk_opt_expr<C: Context>(e: Option<Box<Expr>>, c: &mut C) -> (r: Result<
    Option<Box<Expr>>,
    Error,
>)
    ensures
        match r {
            Result::Ok(e2) => walk_opt_expr_spec(*old(c), e) == Some((*final(c), e2)),
            Result::Err(_) => walk_opt_expr_spec(*old(c), e) is None,
        },
    decreases e,
{
    proof {
        reveal(walk_opt_expr_spec);
        reveal(walk_expr_spec);
    }
    match e {
        Option::Some(inner) => {
            let inner2 = ExprWalker::walk(*inner, c)?;
            Result::Ok(Some(Box::new(inner2)))
        },
        Option::None => Result::Ok(None),
    }
}

/// Walk every arm of a match in order.
pub fn walk_arm_list<C: Context>(l: List<Arm>, c: &mut C) -> (r: Result<List<Arm>, Error>)
    ensures
        match r {
            Result::Ok(l2) => walk_arm_list_spec(*old(c), l) == Some((*final(c), l2)),
            Result::Err(_) => walk_arm_list_spec(*old(c), l) is None,
        },
    decreases l,
{
    proof {
        reveal(walk_arm_list_spec);
        reveal(walk_pat_spec);
        reveal(walk_expr_spec);
        reveal(walk_opt_expr_spec);
    }
    match l {
        List::Nil => Result::Ok(List::Nil),
        List::Cons(head, tail) => {
            let arm = *head;
            let pat2 = PatternWalker::walk(arm.pat, c)?;
            let body2 = ExprWalker::walk(*arm.body, c)?;
            let guard2 = walk_opt_expr(arm.guard, c)?;
            let tail2 = walk_arm_list(*tail, c)?;
            Result::Ok(
                List::Cons(
                    Box::new(Arm { pat: pat2, guard: guard2, body: Box::new(body2) }),
                    Box::new(tail2),
                ),
            )
        },
    }
}

/// Walk every field of a struct literal in order.
pub fn walk_field_value_list<C: Context>(l: List<FieldValue>, c: &mut C) -> (r: Result<
    List<FieldValue>,
    Error,
>)
    ensures
        match r {
            Result::Ok(l2) => walk_field_value_list_spec(*old(c), l) == Some((*final(c), l2)),
            Result::Err(_) => walk_field_value_list_spec(*old(c), l) is None,
        },
    decreases l,
{
    proof {
        reveal(walk_field_value_list_spec);
        reveal(walk_expr_spec);
    }
    match l {
        List::Nil => Result::Ok(List::Nil),
        List::Cons(head, tail) => {
            let field = *head;
            let expr2 = ExprWalker::walk(field.expr, c)?;
            let tail2 = walk_field_value_list(*tail, c)?;
            Result::Ok(
                List::Cons(
                    Box::new(FieldValue { member: field.member, expr: expr2 }),
                    Box::new(tail2),
                ),
            )
        },
    }
}

} // verus!
