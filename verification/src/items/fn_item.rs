//! A function declaration: freestanding, or a member of an implementation
//! block.

use crate::ast::{Signature, Stmt};
use crate::error::Error;
use crate::list::List;
use crate::walkers::signature::{walk_signature_spec, SignatureWalker};
use crate::walkers::statement::{walk_stmt_list, walk_stmt_list_spec};
use crate::walkers::Context;
use vstd::prelude::*;

verus! {

/// A function body and its signature.
#[derive(Debug, PartialEq, Eq)]
pub struct FnDef {
    pub sig: Signature,
    pub body: List<Stmt>,
}

/// Whether a function is freestanding or a member of an implementation.
#[derive(Debug, PartialEq, Eq)]
pub enum FnType {
    Global(FnDef),
    Implementation(FnDef),
}

/// A function declaration.
#[derive(Debug, PartialEq, Eq)]
pub struct FnItem {
    pub item: FnType,
}

/// What walking one function definition does: the body's statements first,
/// then the signature.
#[verifier::opaque]
pub open spec fn walk_fn_def_spec<C: Context>(c: C, f: FnDef) -> Option<(C, FnDef)> {
    match walk_stmt_list_spec(c, f.body) {
        Option::None => None,
        Option::Some((c1, body2)) => match walk_signature_spec(c1, f.sig) {
            Option::None => None,
            Option::Some((c2, sig2)) => Some((c2, FnDef { sig: sig2, body: body2 })),
        },
    }
}

/// What walking a function declaration does.
#[verifier::opaque]
pub open spec fn walk_fn_item_spec<C: Context>(c: C, f: FnItem) -> Option<(C, FnItem)> {
    match f.item {
        FnType::Global(def) => match walk_fn_def_spec(c, def) {
            Option::None => None,
            Option::Some((c1, def2)) => Some((c1, FnItem { item: FnType::Global(def2) })),
        },
        FnType::Implementation(def) => match walk_fn_def_spec(c, def) {
            Option::None => None,
            Option::Some((c1, def2)) => Some((c1, FnItem { item: FnType::Implementation(def2) })),
        },
    }
}

/// The name of a function declaration.
pub open spec fn fn_item_ident_spec(f: FnItem) -> Seq<char> {
    match f.item {
        FnType::Global(def) => def.sig.ident@,
        FnType::Implementation(def) => def.sig.ident@,
    }
}

impl FnType {
    /// The signature, for either kind of function.
    pub fn signature(&self) -> (r: &Signature)
        ensures
            *r == (match *self {
                FnType::Global(def) => def.sig,
                FnType::Implementation(def) => def.sig,
            }),
    {
        match self {
            FnType::Global(def) => &def.sig,
            FnType::Implementation(def) => &def.sig,
        }
    }

    /// The body, for either kind of function.
    pub fn block(&self) -> (r: &List<Stmt>)
        ensures
            *r == (match *self {
                FnType::Global(def) => def.body,
                FnType::Implementation(def) => def.body,
            }),
    {
        match self {
            FnType::Global(def) => &def.body,
            FnType::Implementation(def) => &def.body,
        }
    }
}

impl FnItem {
    /// Wrap a function of either kind as a declaration.
    pub fn new(item: FnType) -> (r: FnItem)
        ensures
            r.item == item,
    {
        FnItem { item }
    }

    /// The declaration's name, read live from its signature.
    pub fn ident(&self) -> (r: String)
        ensures
            r@ == fn_item_ident_spec(*self),
    {
        self.item.signature().ident.clone()
    }

    /// Walk the body's statements, then the signature.
    pub fn walk<C: Context>(self, c: &mut C) -> (r: Result<FnItem, Error>)
        ensures
            match r {
                Result::Ok(f2) => walk_fn_item_spec(*old(c), self) == Some((*final(c), f2)),
                Result::Err(_) => walk_fn_item_spec(*old(c), self) is None,
            },
    {
        proof {
            reveal(walk_fn_item_spec);
            reveal(walk_fn_def_spec);
            reveal(walk_stmt_list_spec);
            reveal(walk_signature_spec);
        }
        match self.item {
            FnType::Global(def) => {
                let body2 = walk_stmt_list(def.body, c)?;
                let sig2 = SignatureWalker::walk(def.sig, c)?;
                Result::Ok(FnItem { item: FnType::Global(FnDef { sig: sig2, body: body2 }) })
            },
            FnType::Implementation(def) => {
                let body2 = walk_stmt_list(def.body, c)?;
                let sig2 = SignatureWalker::walk(def.sig, c)?;
                Result::Ok(
                    FnItem { item: FnType::Implementation(FnDef { sig: sig2, body: body2 }) },
                )
            },
        }
    }
}

/// Walks every function of a list in order.
#[verifier::opaque]
pub open spec fn walk_fn_item_list_spec<C: Context>(c: C, l: List<FnItem>) -> Option<
    (C, List<FnItem>),
>
    decreases l,
{
    match l {
        List::Nil => Some((c, List::Nil)),
        List::Cons(head, tail) => match walk_fn_item_spec(c, *head) {
            Option::None => None,
            Option::Some((c1, head2)) => match walk_fn_item_list_spec(c1, *tail) {
                Option::None => None,
                Option::Some((c2, tail2)) => Some(
                    (c2, List::Cons(Box::new(head2), Box::new(tail2))),
                ),
            },
        },
    }
}

/// Walk every function of a list in order.
pub fn walk_fn_item_list<C: Context>(l: List<FnItem>, c: &mut C) -> (r: Result<
    List<FnItem>,
    Error,
>)
    ensures
        match r {
            Result::Ok(l2) => walk_fn_item_list_spec(*old(c), l) == Some((*final(c), l2)),
            Result::Err(_) => walk_fn_item_list_spec(*old(c), l) is None,
        },
    decreases l,
{
    proof {
        reveal(walk_fn_item_list_spec);
        reveal(walk_fn_item_spec);
    }
    match l {
        List::Nil => Result::Ok(List::Nil),
        List::Cons(head, tail) => {
            let head2 = (*head).walk(c)?;
            let tail2 = walk_fn_item_list(*tail, c)?;
            Result::Ok(List::Cons(Box::new(head2), Box::new(tail2)))
        },
    }
}

} // verus!
