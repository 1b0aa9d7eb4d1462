//! The trim pass: leading occurrences of a prefix are removed from scoped
//! names.  The path predicate declines single-segment paths; nested
//! occurrences inside generic arguments are reached because the walker
//! visits every segment's arguments before the predicate runs.

use crate::ast::{Expr, Stmt, Type};
use crate::error::Error;
use crate::items::item::{walk_item_spec, Item};
use crate::items::module_item::{walk_item_vec, walk_item_vec_spec, ModuleItem};
use crate::items::source_file::SourceFile;
use crate::list::List;
use crate::utils::path::{seg_names, spec_trim_top, Path};
use crate::walkers::expr::{walk_expr_spec, ExprWalker};
use crate::walkers::type_::{walk_type_spec, TypeWalker};
use crate::walkers::Context;
use vstd::prelude::*;

verus! {

/// The context installed by the trim pass: a path predicate holding the
/// prefix's segment names.
pub struct TrimPathContext {
    pub prefix: List<String>,
}

impl Context for TrimPathContext {
    open spec fn type_on(self) -> bool {
        false
    }

    open spec fn expr_on(self) -> bool {
        false
    }

    open spec fn stmt_on(self) -> bool {
        false
    }

    open spec fn path_on(self) -> bool {
        true
    }

    open spec fn ident_on(self) -> bool {
        false
    }

    open spec fn type_step(self, t: Type) -> (Self, Type, bool) {
        (self, t, false)
    }

    open spec fn expr_step(self, e: Expr) -> (Self, Expr, bool) {
        (self, e, false)
    }

    open spec fn stmt_step(self, s: Stmt) -> (Self, Stmt, bool) {
        (self, s, false)
    }

    /// Trimming a path with only one segment has no meaning: were the prefix
    /// to match, the path would be emptied, so such a path is declined.  Any
    /// longer path is handled: its leading prefix is removed when it
    /// matches.
    open spec fn path_step(self, p: Path) -> (Self, Path, bool) {
        if p.segments.seq().len() == 1 {
            (self, p, false)
        } else {
            let (p2, _trimmed) = spec_trim_top(p, self.prefix);
            (self, p2, true)
        }
    }

    open spec fn ident_step(self, i: String) -> (Self, String, bool) {
        (self, i, false)
    }

    proof fn type_step_unhandled(c: Self, t: Type) {
    }

    proof fn expr_step_unhandled(c: Self, e: Expr) {
    }

    proof fn stmt_step_unhandled(c: Self, s: Stmt) {
    }

    fn has_type(&self) -> bool {
        false
    }

    fn has_expr(&self) -> bool {
        false
    }

    fn has_stmt(&self) -> bool {
        false
    }

    fn has_path(&self) -> bool {
        true
    }

    fn has_ident(&self) -> bool {
        false
    }

    fn apply_type(&mut self, t: Type) -> (Type, bool) {
        (t, false)
    }

    fn apply_expr(&mut self, e: Expr) -> (Expr, bool) {
        (e, false)
    }

    fn apply_stmt(&mut self, s: Stmt) -> (Stmt, bool) {
        (s, false)
    }

    fn apply_path(&mut self, p: Path) -> (Path, bool) {
        let single = match &p.segments {
            List::Cons(_, tail) => tail.is_empty(),
            List::Nil => false,
        };
        proof {
            if p.segments is Cons {
                assert(p.segments.seq() =~= seq![*p.segments->Cons_0]
                    + p.segments->Cons_1.seq());
            }
        }
        if single {
            (p, false)
        } else {
            let (p2, _trimmed) = p.trim_top(&self.prefix);
            (p2, true)
        }
    }

    fn apply_ident(&mut self, i: String) -> (String, bool) {
        (i, false)
    }
}

/// The context value that a prefix installs.
pub open spec fn trim_context_spec(prefix: Path) -> TrimPathContext {
    TrimPathContext { prefix: seg_names(prefix.segments) }
}

/// Build the trim context over a prefix path.
pub fn create_context(prefix: &Path) -> (r: TrimPathContext)
    ensures
        r == trim_context_spec(*prefix),
{
    TrimPathContext { prefix: prefix.clone_names() }
}

/// What the pass does to one module: only the declarations change, each
/// walked with the trim context installed.
#[verifier::opaque]
pub open spec fn spec_module_trimmed(prefix: Path, before: ModuleItem, after: ModuleItem) -> bool {
    &&& after.name == before.name
    &&& after.file_name == before.file_name
    &&& after.extern_crate_items == before.extern_crate_items
    &&& after.use_items == before.use_items
    &&& match walk_item_vec_spec(trim_context_spec(prefix), before.items@) {
        Option::Some((cf, items2)) => after.items@ == items2,
        Option::None => false,
    }
}

/// What an aborted pass leaves behind: the modules before some position
/// `k` are trimmed, those after it untouched, and the module at `k` — the
/// first whose declarations the walk fails on — keeps its name, source
/// identifier, imports and external references but loses its declarations.
pub open spec fn spec_trim_aborted(
    prefix: Path,
    before: Seq<ModuleItem>,
    after: Seq<ModuleItem>,
) -> bool {
    exists|k: int|
        #![trigger before[k]]
        {
            &&& 0 <= k < before.len()
            &&& after.len() == before.len()
            &&& walk_item_vec_spec(trim_context_spec(prefix), before[k].items@) is None
            &&& (forall|m: int|
                0 <= m < k ==> spec_module_trimmed(prefix, #[trigger] before[m], after[m]))
            &&& (forall|m: int| k < m < before.len() ==> after[m] == #[trigger] before[m])
            &&& after[k].name == before[k].name
            &&& after[k].file_name == before[k].file_name
            &&& after[k].extern_crate_items == before[k].extern_crate_items
            &&& after[k].use_items == before[k].use_items
            &&& after[k].items@ == Seq::<Item>::empty()
        }
}

/// Trim the prefix from every scoped name of every declaration of every
/// module of the source file.
pub fn from_source_file(source_file: &mut SourceFile, prefix: &Path) -> (r: Result<(), Error>)
    ensures
        match r {
            Result::Ok(_) => {
                &&& final(source_file).attributes == old(source_file).attributes
                &&& final(source_file).modules@.len() == old(source_file).modules@.len()
                &&& forall|m: int|
                    0 <= m < old(source_file).modules@.len() ==> spec_module_trimmed(
                        *prefix,
                        #[trigger] old(source_file).modules@[m],
                        final(source_file).modules@[m],
                    )
            },
            Result::Err(_) => {
                &&& final(source_file).attributes == old(source_file).attributes
                &&& spec_trim_aborted(
                    *prefix,
                    old(source_file).modules@,
                    final(source_file).modules@,
                )
            },
        },
{
    let ghost mods0 = source_file.modules@;
    let mut modules = Vec::new();
    core::mem::swap(&mut source_file.modules, &mut modules);
    let mut done: Vec<ModuleItem> = Vec::new();
    while modules.len() > 0
        invariant
            mods0 == old(source_file).modules@,
            source_file.attributes == old(source_file).attributes,
            done@.len() + modules@.len() == mods0.len(),
            modules@ == mods0.skip(done@.len() as int),
            forall|m: int|
                0 <= m < done@.len() ==> spec_module_trimmed(
                    *prefix,
                    #[trigger] mods0[m],
                    done@[m],
                ),
        decreases modules@.len(),
    {
        let ghost ms = modules@;
        let ghost k = done@.len() as int;
        let mut module = modules.remove(0);
        proof {
            assert(ms[0] == mods0[k]);
        }
        let mut ctx = create_context(prefix);
        let ghost cg = ctx;
        let mut items = Vec::new();
        core::mem::swap(&mut module.items, &mut items);
        let ghost ig = items@;
        match walk_item_vec(items, &mut ctx) {
            Result::Ok(items2) => {
                module.items = items2;
                let ghost m2 = module;
                done.push(module);
                proof {
                    reveal(spec_module_trimmed);
                    assert(spec_module_trimmed(*prefix, mods0[k], m2));
                    assert(modules@ =~= mods0.skip(done@.len() as int));
                }
            },
            Result::Err(e) => {
                module.items = Vec::new();
                let ghost am = module;
                let ghost dold = done@;
                let ghost rest = modules@;
                done.push(module);
                done.append(&mut modules);
                source_file.modules = done;
                proof {
                    let fin = source_file.modules@;
                    assert(fin =~= dold + seq![am] + rest);
                    assert(walk_item_vec_spec(cg, ig) is None);
                    assert(walk_item_vec_spec(trim_context_spec(*prefix), mods0[k].items@)
                        is None);
                    assert(fin.len() == mods0.len());
                    assert forall|m: int| 0 <= m < k implies spec_module_trimmed(
                        *prefix,
                        #[trigger] mods0[m],
                        fin[m],
                    ) by {
                        assert(fin[m] == dold[m]);
                    }
                    assert forall|m: int| k < m < mods0.len() implies fin[m] == #[trigger] mods0[
                        m
                    ] by {
                        assert(fin[m] == rest[m - k - 1]);
                        assert(rest[m - k - 1] == ms[m - k]);
                        assert(ms[m - k] == mods0.skip(k)[m - k]);
                    }
                    assert(fin[k] == am);
                    assert(am.items@ =~= Seq::<Item>::empty());
                    assert(am.name == mods0[k].name);
                    assert(spec_trim_aborted(*prefix, mods0, fin));
                }
                return Result::Err(e);
            },
        }
    }
    source_file.modules = done;
    Result::Ok(())
}

/// Trim the prefix from every scoped name inside one standalone type.
pub fn from_type(type_: &mut Type, prefix: &Path) -> (r: Result<(), Error>)
    ensures
        match r {
            Result::Ok(_) => match walk_type_spec(trim_context_spec(*prefix), *old(type_)) {
                Option::Some((cf, out)) => *final(type_) == out,
                Option::None => false,
            },
            Result::Err(_) => walk_type_spec(trim_context_spec(*prefix), *old(type_)) is None,
        },
{
    let mut ctx = create_context(prefix);
    let mut taken = Type::Infer;
    core::mem::swap(type_, &mut taken);
    match TypeWalker::walk(taken, &mut ctx) {
        Result::Ok(walked) => {
            *type_ = walked;
            Result::Ok(())
        },
        Result::Err(e) => Result::Err(e),
    }
}

/// Trim the prefix from every scoped name inside one standalone expression.
pub fn from_expr(expr: &mut Expr, prefix: &Path) -> (r: Result<(), Error>)
    ensures
        match r {
            Result::Ok(_) => match walk_expr_spec(trim_context_spec(*prefix), *old(expr)) {
                Option::Some((cf, out)) => *final(expr) == out,
                Option::None => false,
            },
            Result::Err(_) => walk_expr_spec(trim_context_spec(*prefix), *old(expr)) is None,
        },
{
    let mut ctx = create_context(prefix);
    let mut taken = Expr::Verbatim(String::new());
    core::mem::swap(expr, &mut taken);
    match ExprWalker::walk(taken, &mut ctx) {
        Result::Ok(walked) => {
            *expr = walked;
            Result::Ok(())
        },
        Result::Err(e) => Result::Err(e),
    }
}

} // verus!
