//! Walks a path node.  Paths use an asymmetric contract: first every
//! segment's nested generic-argument types are walked independently, so that
//! nested occurrences are reached even when a predicate later handles the
//! whole path; then, when a path predicate is installed, it is applied once
//! to the whole path, and, unless that application reports the path handled,
//! once per segment, each segment treated as a one-segment path, enabling
//! partial rewrites of a multi-segment path.  The segments of each
//! per-segment result are spliced into the path in place of the segment.
//!
//! Offering the whole path before the segments is deliberate: a rewrite that
//! must see several segments at once — removing a leading prefix above all —
//! would never fire if the predicate only ever received one-segment paths,
//! while a segment-wise rewrite still receives every segment whenever the
//! whole path went unhandled.  Walking the nested argument types first keeps
//! them reachable either way.

use crate::ast::PathArguments;
use crate::error::Error;
use crate::list::{spec_append, List};
use crate::utils::path::{Path, PathSegment};
use crate::walkers::angle_bracketed_generic_arguments::{
    walk_abga_spec, AngleBracketedGenericArgumentsWalker,
};
use crate::walkers::type_::{
    walk_opt_type, walk_opt_type_spec, walk_type_list, walk_type_list_spec,
};
use crate::walkers::Context;
use vstd::prelude::*;

verus! {

/// What walking one segment's nested generic arguments does: the types of an
/// angle-bracketed list, or the output type then the input types of a
/// parenthesized list.  The segment's identifier is not touched here.
#[verifier::opaque]
pub open spec fn walk_segment_args_spec<C: Context>(c: C, seg: PathSegment) -> Option<
    (C, PathSegment),
>
    decreases seg,
{
    match seg.arguments {
        PathArguments::Plain => Some((c, seg)),
        PathArguments::Angle(a) => match walk_abga_spec(c, a) {
            Option::None => None,
            Option::Some((c1, a2)) => Some(
                (c1, PathSegment { ident: seg.ident, arguments: PathArguments::Angle(a2) }),
            ),
        },
        PathArguments::Paren(p) => match walk_opt_type_spec(c, p.output) {
            Option::None => None,
            Option::Some((c1, output2)) => match walk_type_list_spec(c1, p.inputs) {
                Option::None => None,
                Option::Some((c2, inputs2)) => Some(
                    (
                        c2,
                        PathSegment {
                            ident: seg.ident,
                            arguments: PathArguments::Paren(
                                crate::ast::ParenthesizedGenericArguments {
                                    inputs: inputs2,
                                    output: output2,
                                },
                            ),
                        },
                    ),
                ),
            },
        },
    }
}

/// Walks the nested generic arguments of every segment in order.
#[verifier::opaque]
pub open spec fn walk_segment_list_spec<C: Context>(c: C, l: List<PathSegment>) -> Option<
    (C, List<PathSegment>),
>
    decreases l,
{
    match l {
        List::Nil => Some((c, List::Nil)),
        List::Cons(head, tail) => match walk_segment_args_spec(c, *head) {
            Option::None => None,
            Option::Some((c1, head2)) => match walk_segment_list_spec(c1, *tail) {
                Option::None => None,
                Option::Some((c2, tail2)) => Some(
                    (c2, List::Cons(Box::new(head2), Box::new(tail2))),
                ),
            },
        },
    }
}

/// What applying the path predicate once per segment does: each segment is
/// wrapped as a one-segment path, the predicate is applied, and the segments
/// of the result replace the segment.
#[verifier::opaque]
pub open spec fn per_segment_spec<C: Context>(c: C, l: List<PathSegment>) -> (C, List<PathSegment>)
    decreases l,
{
    match l {
        List::Nil => (c, List::Nil),
        List::Cons(head, tail) => {
            let single = Path { segments: List::Cons(head, Box::new(List::Nil)) };
            let (c1, p2, handled) = c.path_step(single);
            let (c2, tail2) = per_segment_spec(c1, *tail);
            (c2, spec_append(p2.segments, tail2))
        },
    }
}

/// What walking a path does: nested generic arguments of every segment
/// first; then one application of the path predicate to the whole path;
/// then, unless the whole path was handled, one application per segment.
#[verifier::opaque]
pub open spec fn walk_path_spec<C: Context>(c: C, p: Path) -> Option<(C, Path)>
    decreases p,
{
    match walk_segment_list_spec(c, p.segments) {
        Option::None => None,
        Option::Some((c1, segs1)) => {
            if c1.path_on() {
                let (c2, p2, handled) = c1.path_step(Path { segments: segs1 });
                if handled {
                    Some((c2, p2))
                } else {
                    let (c3, segs3) = per_segment_spec(c2, p2.segments);
                    Some((c3, Path { segments: segs3 }))
                }
            } else {
                Some((c1, Path { segments: segs1 }))
            }
        },
    }
}

/// The walker for path nodes.
pub struct PathWalker;

impl PathWalker {
    /// Walk nested generic arguments, then apply the path predicate to the
    /// whole path and, unless it was handled, to each segment wrapped as a
    /// one-segment path.  The whole-path application comes first so that
    /// multi-segment rewrites such as prefix trimming can fire at all; the
    /// per-segment applications preserve partial, segment-wise rewriting
    /// whenever the whole path went unhandled.
    pub fn walk<C: Context>(path: Path, c: &mut C) -> (r: Result<Path, Error>)
        ensures
            match r {
                Result::Ok(p2) => walk_path_spec(*old(c), path) == Some((*final(c), p2)),
                Result::Err(_) => walk_path_spec(*old(c), path) is None,
            },
        decreases path,
    {
        proof {
            reveal(walk_path_spec);
            reveal(walk_segment_list_spec);
            reveal(per_segment_spec);
        }
        let segs1 = walk_segment_list(path.segments, c)?;
        if c.has_path() {
            let (p2, handled) = c.apply_path(Path { segments: segs1 });
            if handled {
                Result::Ok(p2)
            } else {
                let segs3 = per_segment(p2.segments, c);
                Result::Ok(Path { segments: segs3 })
            }
        } else {
            Result::Ok(Path { segments: segs1 })
        }
    }
}

/// Walk the nested generic arguments of every segment in order.
pub fn walk_segment_list<C: Context>(l: List<PathSegment>, c: &mut C) -> (r: Result<
    List<PathSegment>,
    Error,
>)
    ensures
        match r {
            Result::Ok(l2) => walk_segment_list_spec(*old(c), l) == Some((*final(c), l2)),
            Result::Err(_) => walk_segment_list_spec(*old(c), l) is None,
        },
    decreases l,
{
    proof {
        reveal(walk_segment_list_spec);
        reveal(walk_segment_args_spec);
    }
    match l {
        List::Nil => Result::Ok(List::Nil),
        List::Cons(head, tail) => {
            let head2 = walk_segment_args(*head, c)?;
            let tail2 = walk_segment_list(*tail, c)?;
            Result::Ok(List::Cons(Box::new(head2), Box::new(tail2)))
        },
    }
}

/// Walk one segment's nested generic arguments.
pub fn walk_segment_args<C: Context>(seg: PathSegment, c: &mut C) -> (r: Result<PathSegment, Error>)
    ensures
        match r {
            Result::Ok(s2) => walk_segment_args_spec(*old(c), seg) == Some((*final(c), s2)),
            Result::Err(_) => walk_segment_args_spec(*old(c), seg) is None,
        },
    decreases seg,
{
    proof {
        reveal(walk_segment_args_spec);
        reveal(walk_abga_spec);
        reveal(walk_opt_type_spec);
        reveal(walk_type_list_spec);
    }
    match seg.arguments {
        PathArguments::Plain => Result::Ok(PathSegment { ident: seg.ident, arguments: PathArguments::Plain }),
        PathArguments::Angle(a) => {
            let a2 = AngleBracketedGenericArgumentsWalker::walk(a, c)?;
            Result::Ok(PathSegment { ident: seg.ident, arguments: PathArguments::Angle(a2) })
        },
        PathArguments::Paren(p) => {
            let output2 = walk_opt_type(p.output, c)?;
            let inputs2 = walk_type_list(p.inputs, c)?;
            Result::Ok(
                PathSegment {
                    ident: seg.ident,
                    arguments: PathArguments::Paren(
                        crate::ast::ParenthesizedGenericArguments {
                            inputs: inputs2,
                            output: output2,
                        },
                    ),
                },
            )
        },
    }
}

/// Apply the path predicate once per segment, splicing each result in.
pub fn per_segment<C: Context>(l: List<PathSegment>, c: &mut C) -> (r: List<PathSegment>)
    ensures
        per_segment_spec(*old(c), l) == (*final(c), r),
    decreases l,
{
    proof {
        reveal(per_segment_spec);
    }
    reveal(per_segment_spec);
    match l {
        List::Nil => List::Nil,
        List::Cons(head, tail) => {
            let single = Path { segments: List::Cons(head, Box::new(List::Nil)) };
            let (p2, _handled) = c.apply_path(single);
            let tail2 = per_segment(*tail, c);
            p2.segments.append(tail2)
        },
    }
}

} // verus!
