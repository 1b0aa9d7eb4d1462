//! Walks the fields of a struct, union or enum variant: each field's
//! optional name is handed to the identifier predicate, then its type is
//! walked.

use crate::ast::{Field, Fields};
use crate::error::Error;
use crate::list::List;
use crate::walkers::type_::{walk_type_spec, TypeWalker};
use crate::walkers::{walk_opt_ident, walk_opt_ident_spec, Context};
use vstd::prelude::*;

verus! {

/// What walking one field list does: each field's optional name, then its
/// type.
#[verifier::opaque]
pub open spec fn walk_field_list_spec<C: Context>(c: C, l: List<Field>) -> Option<
    (C, List<Field>),
>
    decreases l,
{
    match l {
        List::Nil => Some((c, List::Nil)),
        List::Cons(head, tail) => {
            let field = *head;
            let (c1, ident2) = walk_opt_ident_spec(c, field.ident);
            match walk_type_spec(c1, field.ty) {
                Option::None => None,
                Option::Some((c2, ty2)) => match walk_field_list_spec(c2, *tail) {
                    Option::None => None,
                    Option::Some((c3, tail2)) => Some(
                        (
                            c3,
                            List::Cons(
                                Box::new(Field { ident: ident2, ty: ty2 }),
                                Box::new(tail2),
                            ),
                        ),
                    ),
                },
            }
        },
    }
}

/// What walking a fields node does.
#[verifier::opaque]
pub open spec fn walk_fields_spec<C: Context>(c: C, f: Fields) -> Option<(C, Fields)>
    decreases f,
{
    match f {
        Fields::Named(fields) => match walk_field_list_spec(c, fields) {
            Option::None => None,
            Option::Some((c1, fields2)) => Some((c1, Fields::Named(fields2))),
        },
        Fields::Unnamed(fields) => match walk_field_list_spec(c, fields) {
            Option::None => None,
            Option::Some((c1, fields2)) => Some((c1, Fields::Unnamed(fields2))),
        },
        Fields::Unit => Some((c, Fields::Unit)),
    }
}

/// The walker that dispatches on the shape of a fields node.
pub struct FieldsWalker;

impl FieldsWalker {
    /// Walk named or unnamed fields; a unit shape has no children.
    pub fn walk<C: Context>(fields: Fields, c: &mut C) -> (r: Result<Fields, Error>)
        ensures
            match r {
                Result::Ok(f2) => walk_fields_spec(*old(c), fields) == Some((*final(c), f2)),
                Result::Err(_) => walk_fields_spec(*old(c), fields) is None,
            },
        decreases fields,
    {
        proof {
            reveal(walk_fields_spec);
            reveal(walk_field_list_spec);
        }
        match fields {
            Fields::Named(fields) => {
                let fields2 = walk_field_list(fields, c)?;
                Result::Ok(Fields::Named(fields2))
            },
            Fields::Unnamed(fields) => {
                let fields2 = walk_field_list(fields, c)?;
                Result::Ok(Fields::Unnamed(fields2))
            },
            Fields::Unit => Result::Ok(Fields::Unit),
        }
    }
}

/// The walker for named field lists.
pub struct FieldsNamedWalker;

impl FieldsNamedWalker {
    /// Walk each field's name and type.
    pub fn walk<C: Context>(fields: List<Field>, c: &mut C) -> (r: Result<List<Field>, Error>)
        ensures
            match r {
                Result::Ok(f2) => walk_field_list_spec(*old(c), fields) == Some((*final(c), f2)),
                Result::Err(_) => walk_field_list_spec(*old(c), fields) is None,
            },
        decreases fields,
    {
        walk_field_list(fields, c)
    }
}

/// The walker for unnamed field lists.
pub struct FieldsUnnamedWalker;

impl FieldsUnnamedWalker {
    /// Walk each field's name and type.
    pub fn walk<C: Context>(fields: List<Field>, c: &mut C) -> (r: Result<List<Field>, Error>)
        ensures
            match r {
                Result::Ok(f2) => walk_field_list_spec(*old(c), fields) == Some((*final(c), f2)),
                Result::Err(_) => walk_field_list_spec(*old(c), fields) is None,
            },
        decreases fields,
    {
        walk_field_list(fields, c)
    }
}

/// Walk every field of a list in order.
pub fn walk_field_list<C: Context>(l: List<Field>, c: &mut C) -> (r: Result<List<Field>, Error>)
    ensures
        match r {
            Result::Ok(l2) => walk_field_list_spec(*old(c), l) == Some((*final(c), l2)),
            Result::Err(_) => walk_field_list_spec(*old(c), l) is None,
        },
    decreases l,
{
    proof {
        reveal(walk_field_list_spec);
        reveal(walk_type_spec);
    }
    match l {
        List::Nil => Result::Ok(List::Nil),
        List::Cons(head, tail) => {
            let field = *head;
            let ident2 = walk_opt_ident(field.ident, c);
            let ty2 = TypeWalker::walk(field.ty, c)?;
            let tail2 = walk_field_list(*tail, c)?;
            Result::Ok(List::Cons(Box::new(Field { ident: ident2, ty: ty2 }), Box::new(tail2)))
        },
    }
}

} // verus!
