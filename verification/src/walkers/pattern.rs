//! Walks a pattern node: every structurally owned child is descended into;
//! binding identifiers are handed to the identifier predicate at their use
//! site.

use crate::ast::{FieldPat, Pat};
use crate::error::Error;
use crate::list::List;
use crate::walkers::expr::{walk_member, walk_member_spec, walk_opt_expr, walk_opt_expr_spec};
use crate::walkers::macro_::{walk_macro_spec, MacroWalker};
use crate::walkers::path::{walk_path_spec, PathWalker};
use crate::walkers::statement::{walk_stmt_list, walk_stmt_list_spec};
use crate::walkers::type_::{walk_opt_type, walk_opt_type_spec, walk_type_spec, TypeWalker};
use crate::walkers::{walk_ident, walk_ident_spec, Context};
use vstd::prelude::*;

verus! {

/// What walking a pattern does: default recursion into every owned child of
/// the matched kind, in the fixed order given below.
#[verifier::opaque]
pub open spec fn walk_pat_spec<C: Context>(c: C, p: Pat) -> Option<(C, Pat)>
    decreases p,
{
    match p {
        Pat::ConstBlock(body) => match walk_stmt_list_spec(c, body) {
            Option::None => None,
            Option::Some((c1, body2)) => Some((c1, Pat::ConstBlock(body2))),
        },
        Pat::Ident(name) => {
            let (c1, name2) = walk_ident_spec(c, name);
            Some((c1, Pat::Ident(name2)))
        },
        Pat::Lit(text) => Some((c, Pat::Lit(text))),
        Pat::Macro(mac) => match walk_macro_spec(c, mac) {
            Option::None => None,
            Option::Some((c1, mac2)) => Some((c1, Pat::Macro(mac2))),
        },
        Pat::Or(cases) => match walk_pat_list_spec(c, cases) {
            Option::None => None,
            Option::Some((c1, cases2)) => Some((c1, Pat::Or(cases2))),
        },
        Pat::Paren(inner) => match walk_pat_spec(c, *inner) {
            Option::None => None,
            Option::Some((c1, inner2)) => Some((c1, Pat::Paren(Box::new(inner2)))),
        },
        Pat::Path(qself, path) => match walk_opt_type_spec(c, qself) {
            Option::None => None,
            Option::Some((c1, qself2)) => match walk_path_spec(c1, path) {
                Option::None => None,
                Option::Some((c2, path2)) => Some((c2, Pat::Path(qself2, path2))),
            },
        },
        Pat::Range(start, end) => match walk_opt_expr_spec(c, start) {
            Option::None => None,
            Option::Some((c1, start2)) => match walk_opt_expr_spec(c1, end) {
                Option::None => None,
                Option::Some((c2, end2)) => Some((c2, Pat::Range(start2, end2))),
            },
        },
        Pat::Reference(inner) => match walk_pat_spec(c, *inner) {
            Option::None => None,
            Option::Some((c1, inner2)) => Some((c1, Pat::Reference(Box::new(inner2)))),
        },
        Pat::Rest => Some((c, Pat::Rest)),
        Pat::Slice(elems) => match walk_pat_list_spec(c, elems) {
            Option::None => None,
            Option::Some((c1, elems2)) => Some((c1, Pat::Slice(elems2))),
        },
        Pat::Struct(qself, path, fields) => match walk_opt_type_spec(c, qself) {
            Option::None => None,
            Option::Some((c1, qself2)) => match walk_path_spec(c1, path) {
                Option::None => None,
                Option::Some((c2, path2)) => match walk_field_pat_list_spec(c2, fields) {
                    Option::None => None,
                    Option::Some((c3, fields2)) => Some(
                        (c3, Pat::Struct(qself2, path2, fields2)),
                    ),
                },
            },
        },
        Pat::Tuple(elems) => match walk_pat_list_spec(c, elems) {
            Option::None => None,
            Option::Some((c1, elems2)) => Some((c1, Pat::Tuple(elems2))),
        },
        Pat::TupleStruct(qself, path, elems) => match walk_opt_type_spec(c, qself) {
            Option::None => None,
            Option::Some((c1, qself2)) => match walk_pat_list_spec(c1, elems) {
                Option::None => None,
                Option::Some((c2, elems2)) => match walk_path_spec(c2, path) {
                    Option::None => None,
                    Option::Some((c3, path2)) => Some(
                        (c3, Pat::TupleStruct(qself2, path2, elems2)),
                    ),
                },
            },
        },
        Pat::Typed(pat, ty) => match walk_pat_spec(c, *pat) {
            Option::None => None,
            Option::Some((c1, pat2)) => match walk_type_spec(c1, *ty) {
                Option::None => None,
                Option::Some((c2, ty2)) => Some(
                    (c2, Pat::Typed(Box::new(pat2), Box::new(ty2))),
                ),
            },
        },
        Pat::Wild => Some((c, Pat::Wild)),
    }
}

/// Walks every pattern of a list in order.
#[verifier::opaque]
pub open spec fn walk_pat_list_spec<C: Context>(c: C, l: List<Pat>) -> Option<(C, List<Pat>)>
    decreases l,
{
    match l {
        List::Nil => Some((c, List::Nil)),
        List::Cons(head, tail) => match walk_pat_spec(c, *head) {
            Option::None => None,
            Option::Some((c1, head2)) => match walk_pat_list_spec(c1, *tail) {
                Option::None => None,
                Option::Some((c2, tail2)) => Some(
                    (c2, List::Cons(Box::new(head2), Box::new(tail2))),
                ),
            },
        },
    }
}

/// Walks every field of a struct pattern in order: the pattern first, then
/// the member name.
#[verifier::opaque]
pub open spec fn walk_field_pat_list_spec<C: Context>(c: C, l: List<FieldPat>) -> Option<
    (C, List<FieldPat>),
>
    decreases l,
{
    match l {
        List::Nil => Some((c, List::Nil)),
        List::Cons(head, tail) => {
            let field = *head;
            match walk_pat_spec(c, *field.pat) {
                Option::None => None,
                Option::Some((c1, pat2)) => {
                    let (c2, member2) = walk_member_spec(c1, field.member);
                    match walk_field_pat_list_spec(c2, *tail) {
                        Option::None => None,
                        Option::Some((c3, tail2)) => Some(
                            (
                                c3,
                                List::Cons(
                                    Box::new(FieldPat { member: member2, pat: Box::new(pat2) }),
                                    Box::new(tail2),
                                ),
                            ),
                        ),
                    }
                },
            }
        },
    }
}

/// The walker for pattern nodes.
pub struct PatternWalker;

impl PatternWalker {
    /// Recurse into every owned child of the pattern.
    pub fn walk<C: Context>(pattern: Pat, c: &mut C) -> (r: Result<Pat, Error>)
        ensures
            match r {
                Result::Ok(p2) => walk_pat_spec(*old(c), pattern) == Some((*final(c), p2)),
                Result::Err(_) => walk_pat_spec(*old(c), pattern) is None,
            },
        decreases pattern,
    {
        proof {
            reveal(walk_pat_spec);
            reveal(walk_stmt_list_spec);
            reveal(walk_macro_spec);
            reveal(walk_pat_list_spec);
            reveal(walk_opt_type_spec);
            reveal(walk_path_spec);
            reveal(walk_opt_expr_spec);
            reveal(walk_field_pat_list_spec);
            reveal(walk_type_spec);
        }
        match pattern {
            Pat::ConstBlock(body) => {
                let body2 = walk_stmt_list(body, c)?;
                Result::Ok(Pat::ConstBlock(body2))
            },
            Pat::Ident(name) => {
                let name2 = walk_ident(name, c);
                Result::Ok(Pat::Ident(name2))
            },
            Pat::Lit(text) => Result::Ok(Pat::Lit(text)),
            Pat::Macro(mac) => {
                let mac2 = MacroWalker::walk(mac, c)?;
                Result::Ok(Pat::Macro(mac2))
            },
            Pat::Or(cases) => {
                let cases2 = walk_pat_list(cases, c)?;
                Result::Ok(Pat::Or(cases2))
            },
            Pat::Paren(inner) => {
                let inner2 = PatternWalker::walk(*inner, c)?;
                Result::Ok(Pat::Paren(Box::new(inner2)))
            },
            Pat::Path(qself, path) => {
                let qself2 = walk_opt_type(qself, c)?;
                let path2 = PathWalker::walk(path, c)?;
                Result::Ok(Pat::Path(qself2, path2))
            },
            Pat::Range(start, end) => {
                let start2 = walk_opt_expr(start, c)?;
                let end2 = walk_opt_expr(end, c)?;
                Result::Ok(Pat::Range(start2, end2))
            },
            Pat::Reference(inner) => {
                let inner2 = PatternWalker::walk(*inner, c)?;
                Result::Ok(Pat::Reference(Box::new(inner2)))
            },
            Pat::Rest => Result::Ok(Pat::Rest),
            Pat::Slice(elems) => {
                let elems2 = walk_pat_list(elems, c)?;
                Result::Ok(Pat::Slice(elems2))
            },
            Pat::Struct(qself, path, fields) => {
                let qself2 = walk_opt_type(qself, c)?;
                let path2 = PathWalker::walk(path, c)?;
                let fields2 = walk_field_pat_list(fields, c)?;
                Result::Ok(Pat::Struct(qself2, path2, fields2))
            },
            Pat::Tuple(elems) => {
                let elems2 = walk_pat_list(elems, c)?;
                Result::Ok(Pat::Tuple(elems2))
            },
            Pat::TupleStruct(qself, path, elems) => {
                let qself2 = walk_opt_type(qself, c)?;
                let elems2 = walk_pat_list(elems, c)?;
                let path2 = PathWalker::walk(path, c)?;
                Result::Ok(Pat::TupleStruct(qself2, path2, elems2))
            },
            Pat::Typed(pat, ty) => {
                let pat2 = PatternWalker::walk(*pat, c)?;
                let ty2 = TypeWalker::walk(*ty, c)?;
                Result::Ok(Pat::Typed(Box::new(pat2), Box::new(ty2)))
            },
            Pat::Wild => Result::Ok(Pat::Wild),
        }
    }
}

/// Walk every pattern of a list in order.
pub fn walk_pat_list<C: Context>(l: List<Pat>, c: &mut C) -> (r: Result<List<Pat>, Error>)
    ensures
        match r {
            Result::Ok(l2) => walk_pat_list_spec(*old(c), l) == Some((*final(c), l2)),
            Result::Err(_) => walk_pat_list_spec(*old(c), l) is None,
        },
    decreases l,
{
    proof {
        reveal(walk_pat_list_spec);
        reveal(walk_pat_spec);
    }
    match l {
        List::Nil => Result::Ok(List::Nil),
        List::Cons(head, tail) => {
            let head2 = PatternWalker::walk(*head, c)?;
            let tail2 = walk_pat_list(*tail, c)?;
            Result::Ok(List::Cons(Box::new(head2), Box::new(tail2)))
        },
    }
}

/// Walk every field of a struct pattern in order.
pub fn walk_field_pat_list<C: Context>(l: List<FieldPat>, c: &mut C) -> (r: Result<
    List<FieldPat>,
    Error,
>)
    ensures
        match r {
            Result::Ok(l2) => walk_field_pat_list_spec(*old(c), l) == Some((*final(c), l2)),
            Result::Err(_) => walk_field_pat_list_spec(*old(c), l) is None,
        },
    decreases l,
{
    proof {
        reveal(walk_field_pat_list_spec);
        reveal(walk_pat_spec);
    }
    match l {
        List::Nil => Result::Ok(List::Nil),
        List::Cons(head, tail) => {
            let field = *head;
            let pat2 = PatternWalker::walk(*field.pat, c)?;
            let member2 = walk_member(field.member, c);
            let tail2 = walk_field_pat_list(*tail, c)?;
            Result::Ok(
                List::Cons(
                    Box::new(FieldPat { member: member2, pat: Box::new(pat2) }),
                    Box::new(tail2),
                ),
            )
        },
    }
}

} // verus!
