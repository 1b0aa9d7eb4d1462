//! A module: its name, source identifier, external-reference list, import
//! list, and ordered declaration list.

use crate::error::Error;
use crate::items::enum_item::{EnumItem, ItemEnum};
use crate::items::fn_item::{FnDef, FnItem, FnType};
use crate::items::implementation_item::{
    item_impl_head_spec, spec_attached, ImplementationItem, ItemImpl,
};
use crate::items::item::{item_ident_spec, walk_item_spec, Item};
use crate::items::other_item::{OtherItem, OtherNode};
use crate::items::struct_item::{ItemStruct, StructItem};
use crate::items::use_item::{use_tree_starts_with, UseItem};
use crate::list::{spec_append, List};
use crate::utils::name_conventions::{parse_ok, spec_capitalize, spec_tokens, NamingConventions};
use crate::utils::path::Path;
use crate::utils::text::spec_join;
use crate::walkers::{walk_ident, walk_ident_spec, walk_opt_ident, walk_opt_ident_spec, Context};
use vstd::prelude::*;

verus! {

/// One external-reference entry: the crate's name and an optional rename.
#[derive(Debug, PartialEq, Eq)]
pub struct ExternCrateItem {
    pub ident: String,
    pub rename: Option<String>,
}

/// A module.
#[derive(Debug, PartialEq, Eq)]
pub struct ModuleItem {
    pub name: String,
    pub file_name: String,
    pub extern_crate_items: Vec<ExternCrateItem>,
    pub use_items: Vec<UseItem>,
    pub items: Vec<Item>,
}

/// One node of the flat sequence a module decomposes to.
#[derive(Debug, PartialEq, Eq)]
pub enum FlatItem {
    /// An external-reference node.
    ExternCrate(ExternCrateItem),
    /// An import node.
    Use(UseItem),
    /// A struct declaration, stripped of its attached blocks.
    Struct(ItemStruct),
    /// An enum declaration, stripped of its attached blocks.
    Enum(ItemEnum),
    /// An implementation block, following its owning declaration.
    Impl(ImplementationItem),
    /// A freestanding function.
    Fn(FnDef),
    /// A passthrough declaration.
    Other(OtherItem),
}

/// What walking each declaration of a sequence in order does.
#[verifier::opaque]
pub open spec fn walk_item_vec_spec<C: Context>(c: C, s: Seq<Item>) -> Option<(C, Seq<Item>)>
    decreases s.len(),
{
    if s.len() == 0 {
        Some((c, s))
    } else {
        match walk_item_spec(c, s[0]) {
            Option::None => None,
            Option::Some((c1, it1)) => match walk_item_vec_spec(c1, s.drop_first()) {
                Option::None => None,
                Option::Some((c2, rest)) => Some((c2, seq![it1] + rest)),
            },
        }
    }
}

/// Walk each declaration of a vector in order.
pub fn walk_item_vec<C: Context>(v: Vec<Item>, c: &mut C) -> (r: Result<Vec<Item>, Error>)
    ensures
        match r {
            Result::Ok(v2) => walk_item_vec_spec(*old(c), v@) == Some((*final(c), v2@)),
            Result::Err(_) => walk_item_vec_spec(*old(c), v@) is None,
        },
    decreases v@.len(),
{
    proof {
        reveal(walk_item_vec_spec);
        reveal(walk_item_spec);
    }
    let ghost v0 = v@;
    let mut v = v;
    if v.len() == 0 {
        Result::Ok(v)
    } else {
        let head = v.remove(0);
        proof {
            assert(v@ =~= v0.drop_first());
        }
        let head2 = head.walk(c)?;
        let ghost h2 = head2;
        let rest = walk_item_vec(v, c)?;
        let ghost r2 = rest@;
        let mut out: Vec<Item> = Vec::new();
        out.push(head2);
        let mut rest = rest;
        out.append(&mut rest);
        proof {
            assert(out@ =~= seq![h2] + r2);
        }
        Result::Ok(out)
    }
}

/// What handing each external reference's names to the identifier predicate
/// does, in order.
#[verifier::opaque]
pub open spec fn walk_extern_vec_spec<C: Context>(c: C, s: Seq<ExternCrateItem>) -> (
    C,
    Seq<ExternCrateItem>,
)
    decreases s.len(),
{
    if s.len() == 0 {
        (c, s)
    } else {
        let (c1, ident2) = walk_ident_spec(c, s[0].ident);
        let (c2, rename2) = walk_opt_ident_spec(c1, s[0].rename);
        let (c3, rest) = walk_extern_vec_spec(c2, s.drop_first());
        (c3, seq![ExternCrateItem { ident: ident2, rename: rename2 }] + rest)
    }
}

/// Hand each external reference's names to the identifier predicate.
pub fn walk_extern_vec<C: Context>(v: Vec<ExternCrateItem>, c: &mut C) -> (r: Vec<ExternCrateItem>)
    ensures
        walk_extern_vec_spec(*old(c), v@) == (*final(c), r@),
    decreases v@.len(),
{
    proof {
        reveal(walk_extern_vec_spec);
    }
    let ghost v0 = v@;
    let mut v = v;
    if v.len() == 0 {
        v
    } else {
        let head = v.remove(0);
        proof {
            assert(v@ =~= v0.drop_first());
        }
        let ident2 = walk_ident(head.ident, c);
        let rename2 = walk_opt_ident(head.rename, c);
        let ghost h2 = ExternCrateItem { ident: ident2, rename: rename2 };
        let rest = walk_extern_vec(v, c);
        let ghost r2 = rest@;
        let mut out: Vec<ExternCrateItem> = Vec::new();
        out.push(ExternCrateItem { ident: ident2, rename: rename2 });
        let mut rest = rest;
        out.append(&mut rest);
        proof {
            assert(out@ =~= seq![h2] + r2);
        }
        out
    }
}

/// What walking a module does: every declaration, then every external
/// reference's names.  A module still holding imports is not walked:
/// rewriting import trees is an unimplemented extension point.
#[verifier::opaque]
pub open spec fn walk_module_parts_spec<C: Context>(c: C, m: ModuleItem) -> Option<
    (C, Seq<Item>, Seq<ExternCrateItem>),
> {
    if m.use_items@.len() > 0 {
        None
    } else {
        match walk_item_vec_spec(c, m.items@) {
            Option::None => None,
            Option::Some((c1, items2)) => {
                let (c2, externs2) = walk_extern_vec_spec(c1, m.extern_crate_items@);
                Some((c2, items2, externs2))
            },
        }
    }
}

/// The contents of each attached implementation list as flat nodes.
pub open spec fn spec_flat_impls(l: List<ImplementationItem>) -> Seq<FlatItem>
    decreases l,
{
    match l {
        List::Nil => Seq::empty(),
        List::Cons(head, tail) => seq![FlatItem::Impl(*head)] + spec_flat_impls(*tail),
    }
}

/// The flat nodes one declaration contributes: the declaration itself,
/// followed by its attached implementation blocks.  A member function at the
/// top level has no flat form.
pub open spec fn spec_flat_item(it: Item) -> Option<Seq<FlatItem>> {
    match it {
        Item::Struct(s) => Some(seq![FlatItem::Struct(s.item)] + spec_flat_impls(s.impl_items)),
        Item::Enum(e) => Some(seq![FlatItem::Enum(e.item)] + spec_flat_impls(e.impl_items)),
        Item::Fn(f) => match f.item {
            FnType::Global(def) => Some(seq![FlatItem::Fn(def)]),
            FnType::Implementation(_) => None,
        },
        Item::Other(o) => Some(seq![FlatItem::Other(o)]),
    }
}

/// The flat nodes of a declaration sequence, in order.
pub open spec fn spec_flat_items(s: Seq<Item>) -> Option<Seq<FlatItem>>
    decreases s.len(),
{
    if s.len() == 0 {
        Some(Seq::empty())
    } else {
        match spec_flat_item(s[0]) {
            Option::None => None,
            Option::Some(first) => match spec_flat_items(s.drop_first()) {
                Option::None => None,
                Option::Some(rest) => Some(first + rest),
            },
        }
    }
}

/// The flat sequence a module decomposes to: external-reference nodes, then
/// import nodes, then declaration nodes, each struct or enum immediately
/// followed by its attached implementation blocks.
pub open spec fn spec_decompose(m: ModuleItem) -> Option<Seq<FlatItem>> {
    match spec_flat_items(m.items@) {
        Option::None => None,
        Option::Some(decls) => Some(
            m.extern_crate_items@.map_values(|e: ExternCrateItem| FlatItem::ExternCrate(e))
                + m.use_items@.map_values(|u: UseItem| FlatItem::Use(u)) + decls,
        ),
    }
}

/// The imports kept when those starting with the prefix are removed.
pub open spec fn spec_keep_use_items(s: Seq<UseItem>, prefix: Path) -> Seq<UseItem>
    decreases s.len(),
{
    if s.len() == 0 {
        s
    } else {
        let rest = spec_keep_use_items(s.drop_first(), prefix);
        if use_tree_starts_with(s[0].0, prefix.segments) {
            rest
        } else {
            seq![s[0]] + rest
        }
    }
}

/// The first position at or after `i` holding a struct declaration with the
/// given name.
pub open spec fn spec_find_struct(s: Seq<Item>, name: Seq<char>, i: int) -> Option<int>
    decreases s.len() - i,
{
    if i < 0 || i >= s.len() {
        None
    } else {
        match s[i] {
            Item::Struct(st) => if st.item.ident@ == name {
                Some(i)
            } else {
                spec_find_struct(s, name, i + 1)
            },
            _ => spec_find_struct(s, name, i + 1),
        }
    }
}

/// The first position at or after `i` holding an enum declaration with the
/// given name.
pub open spec fn spec_find_enum(s: Seq<Item>, name: Seq<char>, i: int) -> Option<int>
    decreases s.len() - i,
{
    if i < 0 || i >= s.len() {
        None
    } else {
        match s[i] {
            Item::Enum(e) => if e.item.ident@ == name {
                Some(i)
            } else {
                spec_find_enum(s, name, i + 1)
            },
            _ => spec_find_enum(s, name, i + 1),
        }
    }
}

/// The first position at or after `i` holding a declaration with the given
/// name.
pub open spec fn spec_find_by_ident(s: Seq<Item>, name: Seq<char>, i: int) -> Option<int>
    decreases s.len() - i,
{
    if i < 0 || i >= s.len() {
        None
    } else if item_ident_spec(s[i]) == Some(name) {
        Some(i)
    } else {
        spec_find_by_ident(s, name, i + 1)
    }
}

/// A struct declaration with one more implementation block attached.
pub open spec fn spec_struct_with_impl(s: StructItem, blk: ItemImpl) -> Item {
    Item::Struct(
        StructItem {
            item: s.item,
            impl_items: spec_append(
                s.impl_items,
                List::Cons(Box::new(spec_attached(blk)), Box::new(List::Nil)),
            ),
        },
    )
}

/// An enum declaration with one more implementation block attached.
pub open spec fn spec_enum_with_impl(e: EnumItem, blk: ItemImpl) -> Item {
    Item::Enum(
        EnumItem {
            item: e.item,
            impl_items: spec_append(
                e.impl_items,
                List::Cons(Box::new(spec_attached(blk)), Box::new(List::Nil)),
            ),
        },
    )
}

impl ModuleItem {
    /// A fresh module: its name is the file name rendered in camel style.
    pub fn new(name: &str) -> (r: ModuleItem)
        requires
            parse_ok(name@),
        ensures
            r.name@ == spec_join(
                spec_tokens(name@).map_values(|t: Seq<char>| spec_capitalize(t)),
                Seq::empty(),
            ),
            r.file_name@ == name@,
            r.extern_crate_items@ == Seq::<ExternCrateItem>::empty(),
            r.use_items@ == Seq::<UseItem>::empty(),
            r.items@ == Seq::<Item>::empty(),
    {
        ModuleItem {
            name: NamingConventions::to_camel_case(name),
            file_name: name.to_owned(),
            extern_crate_items: Vec::new(),
            use_items: Vec::new(),
            items: Vec::new(),
        }
    }

    /// The module's display name.
    pub fn name(&self) -> (r: &String)
        ensures
            *r == self.name,
    {
        &self.name
    }

    /// The module's source identifier.
    pub fn file_name(&self) -> (r: &String)
        ensures
            *r == self.file_name,
    {
        &self.file_name
    }

    /// Append one external-reference entry.
    pub fn push_extern_crate_item(&mut self, item: ExternCrateItem)
        ensures
            final(self).extern_crate_items@ == old(self).extern_crate_items@.push(item),
            final(self).name == old(self).name,
            final(self).file_name == old(self).file_name,
            final(self).use_items == old(self).use_items,
            final(self).items == old(self).items,
    {
        self.extern_crate_items.push(item);
    }

    /// Append one import.
    pub fn push_use_item(&mut self, item: UseItem)
        ensures
            final(self).use_items@ == old(self).use_items@.push(item),
            final(self).name == old(self).name,
            final(self).file_name == old(self).file_name,
            final(self).extern_crate_items == old(self).extern_crate_items,
            final(self).items == old(self).items,
    {
        self.use_items.push(item);
    }

    /// Append a struct declaration with no attached blocks.
    pub fn push_struct(&mut self, item: ItemStruct)
        ensures
            final(self).items@ == old(self).items@.push(
                Item::Struct(StructItem { item, impl_items: List::Nil }),
            ),
            final(self).name == old(self).name,
            final(self).file_name == old(self).file_name,
            final(self).extern_crate_items == old(self).extern_crate_items,
            final(self).use_items == old(self).use_items,
    {
        self.items.push(Item::Struct(StructItem { item, impl_items: List::Nil }));
    }

    /// Append a struct declaration as given.
    pub fn push_struct_item(&mut self, item: StructItem)
        ensures
            final(self).items@ == old(self).items@.push(Item::Struct(item)),
            final(self).name == old(self).name,
            final(self).file_name == old(self).file_name,
            final(self).extern_crate_items == old(self).extern_crate_items,
            final(self).use_items == old(self).use_items,
    {
        self.items.push(Item::Struct(item));
    }

    /// Append an enum declaration with no attached blocks.
    pub fn push_enum(&mut self, item: ItemEnum)
        ensures
            final(self).items@ == old(self).items@.push(
                Item::Enum(EnumItem { item, impl_items: List::Nil }),
            ),
            final(self).name == old(self).name,
            final(self).file_name == old(self).file_name,
            final(self).extern_crate_items == old(self).extern_crate_items,
            final(self).use_items == old(self).use_items,
    {
        self.items.push(Item::Enum(EnumItem { item, impl_items: List::Nil }));
    }

    /// Append a freestanding function declaration.
    pub fn push_global_function(&mut self, item: FnDef)
        ensures
            final(self).items@ == old(self).items@.push(
                Item::Fn(FnItem { item: FnType::Global(item) }),
            ),
            final(self).name == old(self).name,
            final(self).file_name == old(self).file_name,
            final(self).extern_crate_items == old(self).extern_crate_items,
            final(self).use_items == old(self).use_items,
    {
        self.items.push(Item::Fn(FnItem { item: FnType::Global(item) }));
    }

    /// Append a passthrough declaration.
    pub fn push_item(&mut self, item: OtherNode)
        ensures
            final(self).items@ == old(self).items@.push(Item::Other(OtherItem { item })),
            final(self).name == old(self).name,
            final(self).file_name == old(self).file_name,
            final(self).extern_crate_items == old(self).extern_crate_items,
            final(self).use_items == old(self).use_items,
    {
        self.items.push(Item::Other(OtherItem { item }));
    }

    /// The leading segment name of an implementation block's subject type.
    fn item_impl_ident(item: &ItemImpl) -> (r: Option<String>)
        ensures
            match r {
                Option::Some(name) => item_impl_head_spec(*item) == Some(name@),
                Option::None => item_impl_head_spec(*item) is None,
            },
    {
        match &*item.self_ty {
            crate::ast::Type::Path(_, p) => match &p.segments {
                List::Cons(seg, _) => {
                    proof {
                        assert(p.segments.seq() =~= seq![*p.segments->Cons_0]
                            + p.segments->Cons_1.seq());
                    }
                    Some(seg.ident.clone())
                },
                List::Nil => None,
            },
            _ => None,
        }
    }

    /// Attach an implementation block to the first struct declaration whose
    /// name equals the block's leading subject name.  A block whose subject
    /// is not a named path, or that matches no struct here, is reported, not
    /// silently dropped.
    pub fn push_impl_to_struct(&mut self, item: ItemImpl) -> (r: Result<(), Error>)
        ensures
            match item_impl_head_spec(item) {
                Option::None => r == Result::<(), Error>::Err(Error::NoIdentity) && *final(self)
                    == *old(self),
                Option::Some(name) => match spec_find_struct(old(self).items@, name, 0) {
                    Option::None => r == Result::<(), Error>::Err(
                        Error::UnmatchedImplementation,
                    ) && *final(self) == *old(self),
                    Option::Some(i) => {
                        &&& r is Ok
                        &&& final(self).items@ == old(self).items@.update(
                            i,
                            spec_struct_with_impl(old(self).items@[i]->Struct_0, item),
                        )
                        &&& final(self).name == old(self).name
                        &&& final(self).file_name == old(self).file_name
                        &&& final(self).extern_crate_items == old(self).extern_crate_items
                        &&& final(self).use_items == old(self).use_items
                    },
                },
            },
    {
        let ghost blk = item;
        let head = match Self::item_impl_ident(&item) {
            Option::Some(name) => name,
            Option::None => {
                return Result::Err(Error::NoIdentity);
            },
        };
        let index = match self.find_struct_from(&head, 0) {
            Option::Some(i) => i,
            Option::None => {
                return Result::Err(Error::UnmatchedImplementation);
            },
        };
        let taken = self.items.remove(index);
        match taken {
            Item::Struct(s) => {
                let attached = ImplementationItem::new(item);
                let impls2 = s.impl_items.append(
                    List::Cons(Box::new(attached), Box::new(List::Nil)),
                );
                let updated = Item::Struct(StructItem { item: s.item, impl_items: impls2 });
                self.items.insert(index, updated);
                proof {
                    assert(self.items@ =~= old(self).items@.update(
                        index as int,
                        spec_struct_with_impl(old(self).items@[index as int]->Struct_0, blk),
                    ));
                }
                Result::Ok(())
            },
            other => {
                self.items.insert(index, other);
                proof {
                    assert(false);
                }
                Result::Err(Error::UnmatchedImplementation)
            },
        }
    }

    /// Attach an implementation block to the first enum declaration whose
    /// name equals the block's leading subject name.
    pub fn push_impl_to_enum(&mut self, item: ItemImpl) -> (r: Result<(), Error>)
        ensures
            match item_impl_head_spec(item) {
                Option::None => r == Result::<(), Error>::Err(Error::NoIdentity) && *final(self)
                    == *old(self),
                Option::Some(name) => match spec_find_enum(old(self).items@, name, 0) {
                    Option::None => r == Result::<(), Error>::Err(
                        Error::UnmatchedImplementation,
                    ) && *final(self) == *old(self),
                    Option::Some(i) => {
                        &&& r is Ok
                        &&& final(self).items@ == old(self).items@.update(
                            i,
                            spec_enum_with_impl(old(self).items@[i]->Enum_0, item),
                        )
                        &&& final(self).name == old(self).name
                        &&& final(self).file_name == old(self).file_name
                        &&& final(self).extern_crate_items == old(self).extern_crate_items
                        &&& final(self).use_items == old(self).use_items
                    },
                },
            },
    {
        let ghost blk = item;
        let head = match Self::item_impl_ident(&item) {
            Option::Some(name) => name,
            Option::None => {
                return Result::Err(Error::NoIdentity);
            },
        };
        let index = match self.find_enum_from(&head, 0) {
            Option::Some(i) => i,
            Option::None => {
                return Result::Err(Error::UnmatchedImplementation);
            },
        };
        let taken = self.items.remove(index);
        match taken {
            Item::Enum(e) => {
                let attached = ImplementationItem::new(item);
                let impls2 = e.impl_items.append(
                    List::Cons(Box::new(attached), Box::new(List::Nil)),
                );
                let updated = Item::Enum(EnumItem { item: e.item, impl_items: impls2 });
                self.items.insert(index, updated);
                proof {
                    assert(self.items@ =~= old(self).items@.update(
                        index as int,
                        spec_enum_with_impl(old(self).items@[index as int]->Enum_0, blk),
                    ));
                }
                Result::Ok(())
            },
            other => {
                self.items.insert(index, other);
                proof {
                    assert(false);
                }
                Result::Err(Error::UnmatchedImplementation)
            },
        }
    }

    /// The first position at or after `i` holding a struct declaration with
    /// the given name.
    fn find_struct_from(&self, name: &String, i: usize) -> (r: Option<usize>)
        requires
            i <= self.items@.len(),
        ensures
            match r {
                Option::Some(idx) => {
                    &&& spec_find_struct(self.items@, name@, i as int) == Some(idx as int)
                    &&& i <= idx < self.items@.len()
                    &&& self.items@[idx as int] is Struct
                },
                Option::None => spec_find_struct(self.items@, name@, i as int) is None,
            },
        decreases self.items@.len() - i,
    {
        if i >= self.items.len() {
            None
        } else {
            let matched = match &self.items[i] {
                Item::Struct(st) => st.item.ident.eq(name),
                _ => false,
            };
            if matched {
                Some(i)
            } else {
                self.find_struct_from(name, i + 1)
            }
        }
    }

    /// The first position at or after `i` holding an enum declaration with
    /// the given name.
    fn find_enum_from(&self, name: &String, i: usize) -> (r: Option<usize>)
        requires
            i <= self.items@.len(),
        ensures
            match r {
                Option::Some(idx) => {
                    &&& spec_find_enum(self.items@, name@, i as int) == Some(idx as int)
                    &&& i <= idx < self.items@.len()
                    &&& self.items@[idx as int] is Enum
                },
                Option::None => spec_find_enum(self.items@, name@, i as int) is None,
            },
        decreases self.items@.len() - i,
    {
        if i >= self.items.len() {
            None
        } else {
            let matched = match &self.items[i] {
                Item::Enum(e) => e.item.ident.eq(name),
                _ => false,
            };
            if matched {
                Some(i)
            } else {
                self.find_enum_from(name, i + 1)
            }
        }
    }

    /// The position of the first declaration named `ident`, by the
    /// declarations' live identities.
    pub fn find_item_by_ident(&self, ident: &String) -> (r: Option<usize>)
        ensures
            match r {
                Option::Some(idx) => {
                    &&& spec_find_by_ident(self.items@, ident@, 0) == Some(idx as int)
                    &&& 0 <= idx < self.items@.len()
                    &&& item_ident_spec(self.items@[idx as int]) == Some(ident@)
                },
                Option::None => spec_find_by_ident(self.items@, ident@, 0) is None,
            },
    {
        self.find_by_ident_from(ident, 0)
    }

    /// Scan for a declaration named `ident` from position `i`.
    fn find_by_ident_from(&self, ident: &String, i: usize) -> (r: Option<usize>)
        requires
            i <= self.items@.len(),
        ensures
            match r {
                Option::Some(idx) => {
                    &&& spec_find_by_ident(self.items@, ident@, i as int) == Some(idx as int)
                    &&& i <= idx < self.items@.len()
                    &&& item_ident_spec(self.items@[idx as int]) == Some(ident@)
                },
                Option::None => spec_find_by_ident(self.items@, ident@, i as int) is None,
            },
        decreases self.items@.len() - i,
    {
        if i >= self.items.len() {
            None
        } else {
            let matched = match self.items[i].ident() {
                Result::Ok(name) => name.eq(ident),
                Result::Err(_) => false,
            };
            if matched {
                Some(i)
            } else {
                self.find_by_ident_from(ident, i + 1)
            }
        }
    }

    /// Decompose the module into one ordered flat sequence: external
    /// references, then imports, then declarations, each struct or enum
    /// immediately followed by its attached implementation blocks.  A member
    /// function at the top level is a logic defect upstream and aborts.
    pub fn decompose(self) -> (r: Result<Vec<FlatItem>, Error>)
        ensures
            match r {
                Result::Ok(flat) => spec_decompose(self) == Some(flat@),
                Result::Err(_) => spec_decompose(self) is None,
            },
    {
        let ghost m0 = self;
        let mut out: Vec<FlatItem> = Vec::new();
        let mut externs = self.extern_crate_items;
        let ghost e0 = externs@;
        while externs.len() > 0
            invariant
                e0 == m0.extern_crate_items@,
                out@ + externs@.map_values(|e: ExternCrateItem| FlatItem::ExternCrate(e)) =~= e0
                    .map_values(|e: ExternCrateItem| FlatItem::ExternCrate(e)),
            decreases externs@.len(),
        {
            let ghost es = externs@;
            let e = externs.remove(0);
            out.push(FlatItem::ExternCrate(e));
            proof {
                assert(externs@ =~= es.drop_first());
                assert(out@ + externs@.map_values(|x: ExternCrateItem| FlatItem::ExternCrate(x))
                    =~= e0.map_values(|x: ExternCrateItem| FlatItem::ExternCrate(x)));
            }
        }
        proof {
            assert(externs@.map_values(|x: ExternCrateItem| FlatItem::ExternCrate(x)) =~= Seq::<
                FlatItem,
            >::empty());
            assert(out@ =~= e0.map_values(|x: ExternCrateItem| FlatItem::ExternCrate(x)));
        }
        let mut uses = self.use_items;
        let ghost u0 = uses@;
        let ghost out_after_externs = out@;
        while uses.len() > 0
            invariant
                u0 == m0.use_items@,
                out_after_externs == e0.map_values(|e: ExternCrateItem| FlatItem::ExternCrate(e)),
                out@ + uses@.map_values(|u: UseItem| FlatItem::Use(u)) =~= out_after_externs + u0
                    .map_values(|u: UseItem| FlatItem::Use(u)),
            decreases uses@.len(),
        {
            let ghost us = uses@;
            let u = uses.remove(0);
            out.push(FlatItem::Use(u));
            proof {
                assert(uses@ =~= us.drop_first());
                assert(out@ + uses@.map_values(|x: UseItem| FlatItem::Use(x)) =~=
                    out_after_externs + u0.map_values(|x: UseItem| FlatItem::Use(x)));
            }
        }
        proof {
            assert(uses@.map_values(|x: UseItem| FlatItem::Use(x)) =~= Seq::<FlatItem>::empty());
            assert(out@ =~= out_after_externs + u0.map_values(|x: UseItem| FlatItem::Use(x)));
        }
        let decls = Self::flat_items(self.items)?;
        let mut decls = decls;
        let ghost d2 = decls@;
        let ghost out_before_decls = out@;
        out.append(&mut decls);
        proof {
            assert(out@ =~= out_before_decls + d2);
            assert(out@ =~= e0.map_values(|e: ExternCrateItem| FlatItem::ExternCrate(e))
                + u0.map_values(|u: UseItem| FlatItem::Use(u)) + d2);
        }
        Result::Ok(out)
    }

    /// The flat nodes of the declarations, in order.
    fn flat_items(v: Vec<Item>) -> (r: Result<Vec<FlatItem>, Error>)
        ensures
            match r {
                Result::Ok(flat) => spec_flat_items(v@) == Some(flat@),
                Result::Err(_) => spec_flat_items(v@) is None,
            },
        decreases v@.len(),
    {
        let ghost v0 = v@;
        let mut v = v;
        if v.len() == 0 {
            let r: Vec<FlatItem> = Vec::new();
            proof {
                assert(r@ =~= Seq::<FlatItem>::empty());
            }
            Result::Ok(r)
        } else {
            let head = v.remove(0);
            proof {
                assert(v@ =~= v0.drop_first());
            }
            let mut first = Self::flat_one(head)?;
            let ghost f2 = first@;
            let rest = Self::flat_items(v)?;
            let ghost r2 = rest@;
            let mut rest = rest;
            first.append(&mut rest);
            proof {
                assert(first@ =~= f2 + r2);
            }
            Result::Ok(first)
        }
    }

    /// The flat nodes of one declaration.
    fn flat_one(it: Item) -> (r: Result<Vec<FlatItem>, Error>)
        ensures
            match r {
                Result::Ok(flat) => spec_flat_item(it) == Some(flat@),
                Result::Err(_) => spec_flat_item(it) is None,
            },
    {
        let ghost it0 = it;
        match it {
            Item::Struct(s) => {
                let mut out: Vec<FlatItem> = Vec::new();
                out.push(FlatItem::Struct(s.item));
                let mut impls = Self::flat_impls(s.impl_items);
                out.append(&mut impls);
                proof {
                    assert(out@ =~= spec_flat_item(it0)->Some_0);
                }
                Result::Ok(out)
            },
            Item::Enum(e) => {
                let mut out: Vec<FlatItem> = Vec::new();
                out.push(FlatItem::Enum(e.item));
                let mut impls = Self::flat_impls(e.impl_items);
                out.append(&mut impls);
                proof {
                    assert(out@ =~= spec_flat_item(it0)->Some_0);
                }
                Result::Ok(out)
            },
            Item::Fn(f) => match f.item {
                FnType::Global(def) => {
                    let mut out: Vec<FlatItem> = Vec::new();
                    out.push(FlatItem::Fn(def));
                    proof {
                        assert(out@ =~= spec_flat_item(it0)->Some_0);
                    }
                    Result::Ok(out)
                },
                FnType::Implementation(_) => Result::Err(Error::NotFreestanding),
            },
            Item::Other(o) => {
                let mut out: Vec<FlatItem> = Vec::new();
                out.push(FlatItem::Other(o));
                proof {
                    assert(out@ =~= spec_flat_item(it0)->Some_0);
                }
                Result::Ok(out)
            },
        }
    }

    /// The attached implementation blocks as flat nodes.
    fn flat_impls(l: List<ImplementationItem>) -> (r: Vec<FlatItem>)
        ensures
            r@ == spec_flat_impls(l),
        decreases l,
    {
        match l {
            List::Nil => {
                let r: Vec<FlatItem> = Vec::new();
                proof {
                    assert(r@ =~= Seq::<FlatItem>::empty());
                }
                r
            },
            List::Cons(head, tail) => {
                let mut out: Vec<FlatItem> = Vec::new();
                let ghost h0 = *head;
                let ghost t0 = *tail;
                out.push(FlatItem::Impl(*head));
                let mut rest = Self::flat_impls(*tail);
                out.append(&mut rest);
                proof {
                    assert(out@ =~= seq![FlatItem::Impl(h0)] + spec_flat_impls(t0));
                }
                out
            },
        }
    }

    /// Remove every import whose path starts with the prefix.
    pub fn remove_use_items_starting_with(&mut self, path_prefix: &Path)
        ensures
            final(self).use_items@ == spec_keep_use_items(old(self).use_items@, *path_prefix),
            final(self).name == old(self).name,
            final(self).file_name == old(self).file_name,
            final(self).extern_crate_items == old(self).extern_crate_items,
            final(self).items == old(self).items,
    {
        let mut taken: Vec<UseItem> = Vec::new();
        core::mem::swap(&mut self.use_items, &mut taken);
        let kept = Self::keep_use_items(taken, path_prefix);
        self.use_items = kept;
    }

    /// The imports kept when those starting with the prefix are removed.
    pub(crate) fn keep_use_items(v: Vec<UseItem>, path_prefix: &Path) -> (r: Vec<UseItem>)
        ensures
            r@ == spec_keep_use_items(v@, *path_prefix),
        decreases v@.len(),
    {
        let ghost v0 = v@;
        let mut v = v;
        if v.len() == 0 {
            v
        } else {
            let head = v.remove(0);
            proof {
                assert(v@ =~= v0.drop_first());
            }
            let ghost h0 = head;
            let starts = head.start_with(path_prefix);
            let rest = Self::keep_use_items(v, path_prefix);
            if starts {
                rest
            } else {
                let ghost r2 = rest@;
                let mut out: Vec<UseItem> = Vec::new();
                out.push(head);
                let mut rest = rest;
                out.append(&mut rest);
                proof {
                    assert(out@ =~= seq![h0] + r2);
                }
                out
            }
        }
    }

    /// The module's own identity: its name.
    pub fn ident(&self) -> (r: String)
        ensures
            r@ == self.name@,
    {
        self.name.clone()
    }

    /// Walk every declaration, then hand each external reference's names to
    /// the identifier predicate.  A module still holding imports is not
    /// walked: rewriting import trees is an unimplemented extension point.
    pub fn walk<C: Context>(self, c: &mut C) -> (r: Result<ModuleItem, Error>)
        ensures
            match r {
                Result::Ok(m2) => {
                    &&& walk_module_parts_spec(*old(c), self) == Some(
                        (*final(c), m2.items@, m2.extern_crate_items@),
                    )
                    &&& m2.name == self.name
                    &&& m2.file_name == self.file_name
                    &&& m2.use_items@.len() == 0
                },
                Result::Err(_) => walk_module_parts_spec(*old(c), self) is None,
            },
    {
        proof {
            reveal(walk_module_parts_spec);
            reveal(walk_item_vec_spec);
            reveal(walk_extern_vec_spec);
        }
        if self.use_items.len() > 0 {
            return Result::Err(Error::Unsupported);
        }
        let items2 = walk_item_vec(self.items, c)?;
        let externs2 = walk_extern_vec(self.extern_crate_items, c);
        Result::Ok(
            ModuleItem {
                name: self.name,
                file_name: self.file_name,
                extern_crate_items: externs2,
                use_items: Vec::new(),
                items: items2,
            },
        )
    }
}

} // verus!
