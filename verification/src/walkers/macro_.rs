//! Walks a macro invocation: the macro's path is walked, then each macro
//! argument is walked as an expression.  The macro body is otherwise opaque.

use crate::ast::MacroInvocation;
use crate::error::Error;
use crate::walkers::expr::{walk_expr_list, walk_expr_list_spec};
use crate::walkers::path::{walk_path_spec, PathWalker};
use crate::walkers::Context;
use vstd::prelude::*;

verus! {

/// What walking a macro invocation does: the path, then the arguments as
/// expressions.
#[verifier::opaque]
pub open spec fn walk_macro_spec<C: Context>(c: C, m: MacroInvocation) -> Option<
    (C, MacroInvocation),
>
    decreases m,
{
    match walk_path_spec(c, m.path) {
        Option::None => None,
        Option::Some((c1, path2)) => match walk_expr_list_spec(c1, m.args) {
            Option::None => None,
            Option::Some((c2, args2)) => Some(
                (c2, MacroInvocation { path: path2, args: args2 }),
            ),
        },
    }
}

/// The walker for macro invocations.
pub struct MacroWalker;

impl MacroWalker {
    /// Walk the macro's path, then its arguments as expressions.
    pub fn walk<C: Context>(macro_: MacroInvocation, c: &mut C) -> (r: Result<
        MacroInvocation,
        Error,
    >)
        ensures
            match r {
                Result::Ok(m2) => walk_macro_spec(*old(c), macro_) == Some((*final(c), m2)),
                Result::Err(_) => walk_macro_spec(*old(c), macro_) is None,
            },
        decreases macro_,
    {
        proof {
            reveal(walk_macro_spec);
            reveal(walk_path_spec);
            reveal(walk_expr_list_spec);
        }
        let path2 = PathWalker::walk(macro_.path, c)?;
        let args2 = walk_expr_list(macro_.args, c)?;
        Result::Ok(MacroInvocation { path: path2, args: args2 })
    }
}

} // verus!
