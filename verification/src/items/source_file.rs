//! A source file: top-level attributes and an ordered module list.  Before a
//! merge it holds one module per parsed input; after a merge, exactly one.

use crate::error::Error;
use crate::items::module_item::{spec_keep_use_items, ModuleItem};
use crate::utils::path::Path;
use vstd::prelude::*;

verus! {

/// A source file.
#[derive(Debug, PartialEq, Eq)]
pub struct SourceFile {
    pub attributes: Vec<String>,
    pub modules: Vec<ModuleItem>,
}

/// The position of the first module with the given name.
pub open spec fn spec_find_module(s: Seq<ModuleItem>, name: Seq<char>, i: int) -> Option<int>
    decreases s.len() - i,
{
    if i < 0 || i >= s.len() {
        None
    } else if s[i].name@ == name {
        Some(i)
    } else {
        spec_find_module(s, name, i + 1)
    }
}

impl SourceFile {
    /// A source file over the given attributes and modules.
    pub fn new(attributes: Vec<String>, modules: Vec<ModuleItem>) -> (r: SourceFile)
        ensures
            r.attributes == attributes,
            r.modules == modules,
    {
        SourceFile { attributes, modules }
    }

    /// The position of the first module with the given name.
    pub fn find_module_by_name(&self, name: &String) -> (r: Option<usize>)
        ensures
            match r {
                Option::Some(idx) => {
                    &&& spec_find_module(self.modules@, name@, 0) == Some(idx as int)
                    &&& 0 <= idx < self.modules@.len()
                    &&& self.modules@[idx as int].name@ == name@
                },
                Option::None => spec_find_module(self.modules@, name@, 0) is None,
            },
    {
        self.find_module_from(name, 0)
    }

    /// Scan for a module with the given name from position `i`.
    fn find_module_from(&self, name: &String, i: usize) -> (r: Option<usize>)
        requires
            i <= self.modules@.len(),
        ensures
            match r {
                Option::Some(idx) => {
                    &&& spec_find_module(self.modules@, name@, i as int) == Some(idx as int)
                    &&& i <= idx < self.modules@.len()
                    &&& self.modules@[idx as int].name@ == name@
                },
                Option::None => spec_find_module(self.modules@, name@, i as int) is None,
            },
        decreases self.modules@.len() - i,
    {
        if i >= self.modules.len() {
            None
        } else {
            if self.modules[i].name.eq(name) {
                Some(i)
            } else {
                self.find_module_from(name, i + 1)
            }
        }
    }

    /// Remove, in every module, every import whose path starts with the
    /// prefix.
    pub fn remove_use_items_starting_with(&mut self, prefix: &Path)
        ensures
            final(self).attributes == old(self).attributes,
            final(self).modules@.len() == old(self).modules@.len(),
            forall|m: int|
                0 <= m < old(self).modules@.len() ==> {
                    let before = #[trigger] old(self).modules@[m];
                    let after = final(self).modules@[m];
                    &&& after.name == before.name
                    &&& after.file_name == before.file_name
                    &&& after.extern_crate_items == before.extern_crate_items
                    &&& after.items == before.items
                    &&& after.use_items@ == spec_keep_use_items(before.use_items@, *prefix)
                },
    {
        let ghost mods0 = self.modules@;
        let mut modules = Vec::new();
        core::mem::swap(&mut self.modules, &mut modules);
        let mut done: Vec<ModuleItem> = Vec::new();
        while modules.len() > 0
            invariant
                done@.len() + modules@.len() == mods0.len(),
                modules@ == mods0.skip(done@.len() as int),
                forall|m: int|
                    0 <= m < done@.len() ==> {
                        let before = #[trigger] mods0[m];
                        let after = done@[m];
                        &&& after.name == before.name
                        &&& after.file_name == before.file_name
                        &&& after.extern_crate_items == before.extern_crate_items
                        &&& after.items == before.items
                        &&& after.use_items@ == spec_keep_use_items(before.use_items@, *prefix)
                    },
            decreases modules@.len(),
        {
            let ghost ms = modules@;
            let ghost k = done@.len() as int;
            let mut module = modules.remove(0);
            proof {
                assert(ms[0] == mods0[k]);
            }
            module.remove_use_items_starting_with(prefix);
            done.push(module);
            proof {
                assert(modules@ =~= mods0.skip(done@.len() as int));
            }
        }
        self.modules = done;
    }
}

} // verus!
