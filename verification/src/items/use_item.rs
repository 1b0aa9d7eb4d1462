//! An import: a tree-shaped description of one or more names brought in from
//! a prefix path, with a starts-with-prefix test and prefix trimming.

use crate::error::Error;
use crate::list::List;
use crate::utils::path::{Path, PathSegment};
use vstd::prelude::*;

verus! {

/// The tree of one import.
#[derive(Debug, PartialEq, Eq)]
pub enum UseTree {
    /// `prefix::rest`.
    Path(String, Box<UseTree>),
    /// A final name.
    Name(String),
    /// `name as alias`.
    Rename(String, String),
    /// `*`.
    Glob,
    /// `{a, b, ...}`.
    Group(List<UseTree>),
}

/// One import.
#[derive(Debug, PartialEq, Eq)]
pub struct UseItem(pub UseTree);

/// The printed form of an import tree, used as its identity when imports
/// are de-duplicated.
pub open spec fn use_tree_str(t: UseTree) -> Seq<char>
    decreases t,
{
    match t {
        UseTree::Path(name, sub) => name@ + "::"@ + use_tree_str(*sub),
        UseTree::Name(name) => name@,
        UseTree::Rename(name, alias) => name@ + " as "@ + alias@,
        UseTree::Glob => "*"@,
        UseTree::Group(items) => "{"@ + use_group_str(items) + "}"@,
    }
}

/// The printed form of a brace group's members, separated by commas.
pub open spec fn use_group_str(l: List<UseTree>) -> Seq<char>
    decreases l,
{
    match l {
        List::Nil => Seq::empty(),
        List::Cons(head, tail) => match *tail {
            List::Nil => use_tree_str(*head),
            List::Cons(_, _) => use_tree_str(*head) + ", "@ + use_group_str(*tail),
        },
    }
}

/// Whether the tree starts with the given non-empty list of segment names:
/// the tree spells exactly those names along a chain of path steps ending at
/// a name, or spells them as a proper prefix of a longer chain.
pub open spec fn use_tree_starts_with(t: UseTree, pre: List<PathSegment>) -> bool
    decreases t,
{
    match pre {
        List::Nil => false,
        List::Cons(p, pt) => match t {
            UseTree::Path(name, sub) => if name@ == p.ident@ {
                match *pt {
                    List::Nil => true,
                    List::Cons(_, _) => use_tree_starts_with(*sub, *pt),
                }
            } else {
                false
            },
            UseTree::Name(name) => name@ == p.ident@ && (*pt matches List::Nil),
            _ => false,
        },
    }
}

/// The tree left when the given names are removed from the front: the chain
/// below the last matched path step, or the matched final name itself.
pub open spec fn use_tree_trim(t: UseTree, pre: List<PathSegment>) -> Option<UseTree>
    decreases t,
{
    match pre {
        List::Nil => None,
        List::Cons(p, pt) => match t {
            UseTree::Path(name, sub) => if name@ == p.ident@ {
                match *pt {
                    List::Nil => Some(*sub),
                    List::Cons(_, _) => use_tree_trim(*sub, *pt),
                }
            } else {
                None
            },
            UseTree::Name(name) => if name@ == p.ident@ && (*pt matches List::Nil) {
                Some(UseTree::Name(name))
            } else {
                None
            },
            _ => None,
        },
    }
}

impl UseItem {
    /// Whether the import's path starts with the prefix's segment names.
    pub fn start_with(&self, path_prefix: &Path) -> (r: bool)
        ensures
            r == use_tree_starts_with(self.0, path_prefix.segments),
    {
        Self::tree_starts_with(&self.0, &path_prefix.segments)
    }

    /// Walk the tree and the prefix names in lock-step.
    fn tree_starts_with(t: &UseTree, pre: &List<PathSegment>) -> (r: bool)
        ensures
            r == use_tree_starts_with(*t, *pre),
        decreases *t,
    {
        match pre {
            List::Nil => false,
            List::Cons(p, pt) => match t {
                UseTree::Path(name, sub) => {
                    if name.eq(&p.ident) {
                        match &**pt {
                            List::Nil => true,
                            List::Cons(_, _) => Self::tree_starts_with(sub, pt),
                        }
                    } else {
                        false
                    }
                },
                UseTree::Name(name) => {
                    let tail_empty = match &**pt {
                        List::Nil => true,
                        List::Cons(_, _) => false,
                    };
                    name.eq(&p.ident) && tail_empty
                },
                _ => false,
            },
        }
    }

    /// Remove the prefix's segment names from the front of the import's
    /// path.  Reports whether the prefix matched; on failure the import is
    /// returned unchanged.
    pub fn trim_path_prefix(self, path_prefix: &Path) -> (r: (UseItem, bool))
        ensures
            match use_tree_trim(self.0, path_prefix.segments) {
                Option::Some(t2) => r == (UseItem(t2), true),
                Option::None => r == (self, false),
            },
    {
        match Self::tree_trim(self.0, &path_prefix.segments) {
            Result::Ok(t2) => (UseItem(t2), true),
            Result::Err(back) => (UseItem(back), false),
        }
    }

    /// The printed form of the import.
    pub fn to_string(&self) -> (r: String)
        ensures
            r@ == use_tree_str(self.0),
    {
        Self::tree_string(&self.0)
    }

    /// Print one tree.
    fn tree_string(t: &UseTree) -> (r: String)
        ensures
            r@ == use_tree_str(*t),
        decreases *t,
    {
        match t {
            UseTree::Path(name, sub) => {
                let mut r = name.clone();
                r.append("::");
                let rest = Self::tree_string(sub);
                r.append(rest.as_str());
                r
            },
            UseTree::Name(name) => name.clone(),
            UseTree::Rename(name, alias) => {
                let mut r = name.clone();
                r.append(" as ");
                r.append(alias.as_str());
                r
            },
            UseTree::Glob => {
                let mut r = String::new();
                r.append("*");
                r
            },
            UseTree::Group(items) => {
                let mut r = String::new();
                r.append("{");
                let inner = Self::group_string(items);
                r.append(inner.as_str());
                r.append("}");
                r
            },
        }
    }

    /// Print a brace group's members, separated by commas.
    fn group_string(l: &List<UseTree>) -> (r: String)
        ensures
            r@ == use_group_str(*l),
        decreases *l,
    {
        match l {
            List::Nil => String::new(),
            List::Cons(head, tail) => match &**tail {
                List::Nil => Self::tree_string(head),
                List::Cons(_, _) => {
                    let mut r = Self::tree_string(head);
                    r.append(", ");
                    let rest = Self::group_string(tail);
                    r.append(rest.as_str());
                    r
                },
            },
        }
    }

    /// Remove matching leading names, or return the tree unchanged.
    fn tree_trim(t: UseTree, pre: &List<PathSegment>) -> (r: Result<UseTree, UseTree>)
        ensures
            match r {
                Result::Ok(t2) => use_tree_trim(t, *pre) == Some(t2),
                Result::Err(back) => back == t && use_tree_trim(t, *pre) is None,
            },
        decreases t,
    {
        match pre {
            List::Nil => Result::Err(t),
            List::Cons(p, pt) => match t {
                UseTree::Path(name, sub) => {
                    if name.eq(&p.ident) {
                        match &**pt {
                            List::Nil => Result::Ok(*sub),
                            List::Cons(_, _) => match Self::tree_trim(*sub, pt) {
                                Result::Ok(t2) => Result::Ok(t2),
                                Result::Err(back) => Result::Err(
                                    UseTree::Path(name, Box::new(back)),
                                ),
                            },
                        }
                    } else {
                        Result::Err(UseTree::Path(name, sub))
                    }
                },
                UseTree::Name(name) => {
                    let tail_empty = match &**pt {
                        List::Nil => true,
                        List::Cons(_, _) => false,
                    };
                    if name.eq(&p.ident) && tail_empty {
                        Result::Ok(UseTree::Name(name))
                    } else {
                        Result::Err(UseTree::Name(name))
                    }
                },
                other => Result::Err(other),
            },
        }
    }
}

} // verus!
