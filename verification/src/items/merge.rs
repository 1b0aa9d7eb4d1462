//! The merge engine: cross-module collision detection and resolution,
//! physical union, and canonical ordering.

use crate::error::Error;
use crate::functions::rename::{rename_context_spec, RenameContext};
use crate::items::item::{item_ident_spec, Item};
use crate::items::fn_item::fn_item_ident_spec;
use crate::items::module_item::{
    spec_decompose, spec_flat_impls, spec_flat_item, spec_flat_items, spec_keep_use_items, walk_item_vec,
    walk_item_vec_spec, ExternCrateItem, FlatItem, ModuleItem,
};
use crate::items::other_item::other_ident_spec;
use vstd::multiset::Multiset;
use crate::items::other_item::OtherItem;
use crate::items::source_file::SourceFile;
use crate::items::use_item::{use_tree_str, UseItem};
use crate::utils::path::{path_names, Path};
use crate::utils::text::{remove_occurrences, spec_remove_occurrences, strings_view};
use vstd::prelude::*;

verus! {

/// Whether the module holds a declaration with the given name.
pub open spec fn spec_module_declares(m: ModuleItem, n: Seq<char>) -> bool {
    exists|k: int|
        0 <= k < m.items@.len() && item_ident_spec(#[trigger] m.items@[k]) == Some(n)
}

/// Whether two distinct modules at or after position `i` declare one name.
pub open spec fn spec_two_declare_from(mods: Seq<ModuleItem>, n: Seq<char>, i: int) -> bool {
    exists|a: int, b: int|
        i <= a < b < mods.len() && spec_module_declares(#[trigger] mods[a], n)
            && spec_module_declares(#[trigger] mods[b], n)
}

/// Whether some module at or after position `i` declares the name.
pub open spec fn spec_one_declares_from(mods: Seq<ModuleItem>, n: Seq<char>, i: int) -> bool {
    exists|b: int| i <= b < mods.len() && spec_module_declares(#[trigger] mods[b], n)
}

/// Whether two distinct modules declare one name: a collision.
pub open spec fn spec_two_declare(mods: Seq<ModuleItem>, n: Seq<char>) -> bool {
    spec_two_declare_from(mods, n, 0)
}

/// Whether no name is declared by two or more modules.
pub open spec fn spec_collision_free(mods: Seq<ModuleItem>) -> bool {
    forall|n: Seq<char>| !spec_two_declare(mods, n)
}

/// One module after the module-local rename that qualifies the colliding
/// name `n`: the new name is the module's own name followed by `n` with
/// every occurrence of the module's name removed, and the declarations are
/// the rename walk's output.  Nothing else of the module changes.
pub open spec fn spec_module_renamed(n: Seq<char>, before: ModuleItem, after: ModuleItem) -> bool {
    &&& after.name == before.name
    &&& after.file_name == before.file_name
    &&& after.extern_crate_items == before.extern_crate_items
    &&& after.use_items == before.use_items
    &&& exists|from: String, to: String|
        #![trigger walk_item_vec_spec(rename_context_spec(from, to), before.items@)]
        {
            &&& from@ == n
            &&& to@ == before.name@ + spec_remove_occurrences(n, before.name@)
            &&& match walk_item_vec_spec(rename_context_spec(from, to), before.items@) {
                Option::Some((cf, items2)) => after.items@ == items2,
                Option::None => false,
            }
        }
}

/// One collision name resolved across the modules: each module that
/// declares the name is renamed module-locally; every other module — and so
/// every reference to the name from a module that does not declare it — is
/// left untouched.
pub open spec fn spec_resolve_name(
    n: Seq<char>,
    before: Seq<ModuleItem>,
    after: Seq<ModuleItem>,
) -> bool {
    &&& after.len() == before.len()
    &&& forall|m: int|
        0 <= m < before.len() ==> if spec_module_declares(#[trigger] before[m], n) {
            spec_module_renamed(n, before[m], after[m])
        } else {
            after[m] == before[m]
        }
}

/// The collision names processed left to right, each over the state the
/// previous ones produced.
pub open spec fn spec_resolve_names(
    names: Seq<Seq<char>>,
    before: Seq<ModuleItem>,
    after: Seq<ModuleItem>,
) -> bool
    decreases names.len(),
{
    if names.len() == 0 {
        after == before
    } else {
        exists|mid: Seq<ModuleItem>|
            #![trigger spec_resolve_name(names[0], before, mid)]
            spec_resolve_name(names[0], before, mid) && spec_resolve_names(
                names.drop_first(),
                mid,
                after,
            )
    }
}

/// Whether the list holds the name.
pub open spec fn spec_names_contain(names: Seq<Seq<char>>, n: Seq<char>) -> bool {
    exists|t: int| 0 <= t < names.len() && names[t] == n
}

/// What collision resolution does: some list of names — exactly the names
/// declared by two or more of the given modules, each once — is processed
/// in order, each renaming module-locally.
pub open spec fn spec_resolved(before: Seq<ModuleItem>, after: Seq<ModuleItem>) -> bool {
    exists|names: Seq<Seq<char>>|
        #![trigger spec_resolve_names(names, before, after)]
        {
            &&& (forall|t: int, u: int| 0 <= t < u < names.len() ==> names[t] != names[u])
            &&& (forall|t: int|
                0 <= t < names.len() ==> spec_two_declare(before, #[trigger] names[t]))
            &&& (forall|n: Seq<char>|
                spec_two_declare(before, n) ==> spec_names_contain(names, n))
            &&& spec_resolve_names(names, before, after)
        }
}

/// What an aborted collision resolution leaves behind: some colliding name
/// `n` of the input was being renamed in an owning module `m` — with the
/// module-qualified replacement the resolution computes — when the rename
/// walk failed on an unsupported construct; that module's declarations are
/// dropped, its other fields kept.
pub open spec fn spec_rename_aborted(before: Seq<ModuleItem>, after: Seq<ModuleItem>) -> bool {
    exists|n: Seq<char>, from: String, to: String, its: Seq<Item>, m: int|
        #![trigger spec_remove_occurrences(n, before[m].name@), walk_item_vec_spec(
            rename_context_spec(from, to),
            its,
        )]
        {
            &&& spec_two_declare(before, n)
            &&& 0 <= m < before.len()
            &&& from@ == n
            &&& to@ == before[m].name@ + spec_remove_occurrences(n, before[m].name@)
            &&& walk_item_vec_spec(rename_context_spec(from, to), its) is None
            &&& after.len() == before.len()
            &&& after[m].items@ == Seq::<Item>::empty()
        }
}

/// Every declaration position already scanned whose name is a collision is
/// recorded in the gathered list.
spec fn spec_scanned_recorded(mods: Seq<ModuleItem>, found: Seq<String>, i: int, k: int) -> bool {
    forall|a: int, kk: int|
        (0 <= a < mods.len() && 0 <= kk < mods[a].items@.len() && (a < i || (a == i && kk < k)))
            ==> match item_ident_spec(#[trigger] mods[a].items@[kk]) {
            Option::Some(v) => spec_two_declare(mods, v) ==> spec_names_contain(
                strings_view(found),
                v,
            ),
            Option::None => true,
        }
}

/// One more resolved name extends the left-to-right composition.
proof fn lemma_resolve_names_push(
    names: Seq<Seq<char>>,
    x: Seq<char>,
    a: Seq<ModuleItem>,
    b: Seq<ModuleItem>,
    c: Seq<ModuleItem>,
)
    requires
        spec_resolve_names(names, a, b),
        spec_resolve_name(x, b, c),
    ensures
        spec_resolve_names(names.push(x), a, c),
    decreases names.len(),
{
    if names.len() == 0 {
        assert(b == a);
        assert(names.push(x)[0] == x);
        assert(names.push(x).drop_first() =~= names);
        assert(spec_resolve_name(names.push(x)[0], a, c));
        assert(spec_resolve_names(names.push(x).drop_first(), c, c));
    } else {
        let mid = choose|mid: Seq<ModuleItem>|
            #![trigger spec_resolve_name(names[0], a, mid)]
            spec_resolve_name(names[0], a, mid) && spec_resolve_names(
                names.drop_first(),
                mid,
                b,
            );
        lemma_resolve_names_push(names.drop_first(), x, mid, b, c);
        assert(names.push(x)[0] == names[0]);
        assert(names.push(x).drop_first() =~= names.drop_first().push(x));
        assert(spec_resolve_name(names.push(x)[0], a, mid));
        assert(spec_resolve_names(names.push(x).drop_first(), mid, c));
    }
}

/// Whether a declaration is a freestanding-function passthrough.
pub open spec fn spec_is_fn_other(it: Item) -> bool {
    match it {
        Item::Other(o) => o.item is Fn,
        _ => false,
    }
}

/// The declarations whose freestanding-function flag equals `flag`, in
/// order.
pub open spec fn spec_keep_kind(s: Seq<Item>, flag: bool) -> Seq<Item>
    decreases s.len(),
{
    if s.len() == 0 {
        s
    } else {
        let rest = spec_keep_kind(s.drop_first(), flag);
        if spec_is_fn_other(s[0]) == flag {
            seq![s[0]] + rest
        } else {
            rest
        }
    }
}

/// The canonical ordering: every freestanding-function passthrough precedes
/// every remaining declaration, relative order preserved in each part.
pub open spec fn spec_partition_items(s: Seq<Item>) -> Seq<Item> {
    spec_keep_kind(s, true) + spec_keep_kind(s, false)
}

/// Whether freestanding-function passthroughs all stand in front.
pub open spec fn spec_fn_first(s: Seq<Item>) -> bool {
    forall|i: int, j: int|
        0 <= i < j < s.len() && spec_is_fn_other(#[trigger] s[j]) ==> spec_is_fn_other(
            #[trigger] s[i],
        )
}

/// The declarations of all modules, in module order.
pub open spec fn spec_concat_items(mods: Seq<ModuleItem>) -> Seq<Item>
    decreases mods.len(),
{
    if mods.len() == 0 {
        Seq::empty()
    } else {
        mods[0].items@ + spec_concat_items(mods.drop_first())
    }
}

/// The external references of all modules, in module order.
pub open spec fn spec_concat_externs(mods: Seq<ModuleItem>) -> Seq<ExternCrateItem>
    decreases mods.len(),
{
    if mods.len() == 0 {
        Seq::empty()
    } else {
        mods[0].extern_crate_items@ + spec_concat_externs(mods.drop_first())
    }
}

/// The imports of all modules, in module order.
pub open spec fn spec_concat_uses(mods: Seq<ModuleItem>) -> Seq<UseItem>
    decreases mods.len(),
{
    if mods.len() == 0 {
        Seq::empty()
    } else {
        mods[0].use_items@ + spec_concat_uses(mods.drop_first())
    }
}

/// External references with later duplicates by name removed, first
/// occurrence winning.
pub open spec fn spec_dedup_externs(s: Seq<ExternCrateItem>) -> Seq<ExternCrateItem>
    decreases s.len(),
{
    if s.len() == 0 {
        s
    } else {
        let rest = spec_dedup_externs(s.drop_last());
        if exists|j: int| 0 <= j < s.len() - 1 && (#[trigger] s[j]).ident@ == s.last().ident@ {
            rest
        } else {
            rest.push(s.last())
        }
    }
}

/// Imports with later duplicates by printed form removed, first occurrence
/// winning.
pub open spec fn spec_dedup_uses(s: Seq<UseItem>) -> Seq<UseItem>
    decreases s.len(),
{
    if s.len() == 0 {
        s
    } else {
        let rest = spec_dedup_uses(s.drop_last());
        if exists|j: int|
            0 <= j < s.len() - 1 && use_tree_str((#[trigger] s[j]).0) == use_tree_str(
                s.last().0,
            ) {
            rest
        } else {
            rest.push(s.last())
        }
    }
}

/// The imports left when those starting with each prefix, in turn, are
/// removed.
pub open spec fn spec_strip_prefixes(uses: Seq<UseItem>, prefixes: Seq<Path>, i: int) -> Seq<
    UseItem,
>
    decreases prefixes.len() - i,
{
    if i < 0 || i >= prefixes.len() {
        uses
    } else {
        spec_strip_prefixes(spec_keep_use_items(uses, prefixes[i]), prefixes, i + 1)
    }
}

/// Every kept declaration carries the flag it was selected by.
proof fn lemma_keep_kind_flag(s: Seq<Item>, flag: bool)
    ensures
        forall|i: int|
            0 <= i < spec_keep_kind(s, flag).len() ==> spec_is_fn_other(
                #[trigger] spec_keep_kind(s, flag)[i],
            ) == flag,
    decreases s.len(),
{
    if s.len() > 0 {
        lemma_keep_kind_flag(s.drop_first(), flag);
        let k = spec_keep_kind(s, flag);
        let r = spec_keep_kind(s.drop_first(), flag);
        if spec_is_fn_other(s[0]) == flag {
            assert(k =~= seq![s[0]] + r);
            assert forall|i: int| 0 <= i < k.len() implies spec_is_fn_other(#[trigger] k[i])
                == flag by {
                if i > 0 {
                    assert(k[i] == r[i - 1]);
                }
            }
        } else {
            assert(k =~= r);
            assert forall|i: int| 0 <= i < k.len() implies spec_is_fn_other(#[trigger] k[i])
                == flag by {
                assert(k[i] == r[i]);
            }
        }
    }
}

/// The canonical ordering puts every freestanding-function passthrough in
/// front.
pub proof fn lemma_partition_fn_first(s: Seq<Item>)
    ensures
        spec_fn_first(spec_partition_items(s)),
{
    lemma_keep_kind_flag(s, true);
    lemma_keep_kind_flag(s, false);
}

/// The canonical ordering is a permutation: merging collision-free modules
/// and reading the declarations back yields the same multiset of
/// declarations as the union of the inputs, only the order having changed.
pub proof fn lemma_partition_permutes(s: Seq<Item>)
    ensures
        spec_partition_items(s).to_multiset() == s.to_multiset(),
    decreases s.len(),
{
    broadcast use vstd::seq_lib::group_to_multiset_ensures;

    if s.len() == 0 {
        assert(spec_partition_items(s) =~= s);
    } else {
        lemma_partition_permutes(s.drop_first());
        let rest = s.drop_first();
        let kt = spec_keep_kind(s, true);
        let kf = spec_keep_kind(s, false);
        let rt = spec_keep_kind(rest, true);
        let rf = spec_keep_kind(rest, false);
        vstd::seq_lib::lemma_multiset_commutative(rt, rf);
        vstd::seq_lib::lemma_multiset_commutative(kt, kf);
        if spec_is_fn_other(s[0]) {
            assert(kt =~= seq![s[0]] + rt);
            assert(kf =~= rf);
            vstd::seq_lib::lemma_multiset_commutative(seq![s[0]], rt);
        } else {
            assert(kt =~= rt);
            assert(kf =~= seq![s[0]] + rf);
            vstd::seq_lib::lemma_multiset_commutative(seq![s[0]], rf);
        }
        assert(s =~= seq![s[0]] + rest);
        vstd::seq_lib::lemma_multiset_commutative(seq![s[0]], rest);
        assert(spec_partition_items(s).to_multiset() =~= s.to_multiset());
    }
}

/// The kind of one declaration, for comparisons by identity and kind.
pub enum DeclKind {
    Struct,
    Enum,
    Fn,
    Other,
}

/// The identity and kind of one declaration.
pub open spec fn spec_item_key(it: Item) -> (Option<Seq<char>>, DeclKind) {
    match it {
        Item::Struct(_) => (item_ident_spec(it), DeclKind::Struct),
        Item::Enum(_) => (item_ident_spec(it), DeclKind::Enum),
        Item::Fn(_) => (item_ident_spec(it), DeclKind::Fn),
        Item::Other(_) => (item_ident_spec(it), DeclKind::Other),
    }
}

/// The multiset of declaration keys of an item sequence.
pub open spec fn spec_item_keys(s: Seq<Item>) -> Multiset<(Option<Seq<char>>, DeclKind)>
    decreases s.len(),
{
    if s.len() == 0 {
        Multiset::empty()
    } else {
        spec_item_keys(s.drop_first()).insert(spec_item_key(s[0]))
    }
}

/// The declaration key of one flat node; external references, imports and
/// implementation blocks are not declarations and carry none.
pub open spec fn spec_flat_key(f: FlatItem) -> Option<(Option<Seq<char>>, DeclKind)> {
    match f {
        FlatItem::Struct(si) => Some((Some(si.ident@), DeclKind::Struct)),
        FlatItem::Enum(ei) => Some((Some(ei.ident@), DeclKind::Enum)),
        FlatItem::Fn(def) => Some((Some(fn_item_ident_spec(
            crate::items::fn_item::FnItem { item: crate::items::fn_item::FnType::Global(def) },
        )), DeclKind::Fn)),
        FlatItem::Other(o) => Some((other_ident_spec(o), DeclKind::Other)),
        _ => None,
    }
}

/// The multiset of declaration keys among a flat sequence.
pub open spec fn spec_flat_decl_keys(s: Seq<FlatItem>) -> Multiset<(Option<Seq<char>>, DeclKind)>
    decreases s.len(),
{
    if s.len() == 0 {
        Multiset::empty()
    } else {
        let rest = spec_flat_decl_keys(s.drop_first());
        match spec_flat_key(s[0]) {
            Option::Some(k) => rest.insert(k),
            Option::None => rest,
        }
    }
}

/// Declaration keys distribute over concatenation of item sequences.
proof fn lemma_item_keys_add(a: Seq<Item>, b: Seq<Item>)
    ensures
        spec_item_keys(a + b) == spec_item_keys(a).add(spec_item_keys(b)),
    decreases a.len(),
{
    broadcast use vstd::multiset::group_multiset_axioms;

    if a.len() == 0 {
        assert(a + b =~= b);
        assert(spec_item_keys(a + b) =~= spec_item_keys(a).add(spec_item_keys(b)));
    } else {
        lemma_item_keys_add(a.drop_first(), b);
        assert((a + b).drop_first() =~= a.drop_first() + b);
        assert((a + b)[0] == a[0]);
        assert(spec_item_keys(a + b) =~= spec_item_keys(a).add(spec_item_keys(b)));
    }
}

/// The canonical ordering preserves the multiset of declaration keys.
proof fn lemma_partition_keys(s: Seq<Item>)
    ensures
        spec_item_keys(spec_partition_items(s)) == spec_item_keys(s),
    decreases s.len(),
{
    broadcast use vstd::multiset::group_multiset_axioms;

    if s.len() == 0 {
        assert(spec_partition_items(s) =~= s);
    } else {
        lemma_partition_keys(s.drop_first());
        let rest = s.drop_first();
        let kt = spec_keep_kind(s, true);
        let kf = spec_keep_kind(s, false);
        let rt = spec_keep_kind(rest, true);
        let rf = spec_keep_kind(rest, false);
        lemma_item_keys_add(rt, rf);
        lemma_item_keys_add(kt, kf);
        assert(seq![s[0]].drop_first() =~= Seq::<Item>::empty());
        assert(spec_item_keys(Seq::<Item>::empty()) =~= Multiset::<
            (Option<Seq<char>>, DeclKind),
        >::empty());
        assert(spec_item_keys(seq![s[0]]) =~= Multiset::empty().insert(spec_item_key(s[0])));
        if spec_is_fn_other(s[0]) {
            assert(kt =~= seq![s[0]] + rt);
            assert(kf =~= rf);
            lemma_item_keys_add(seq![s[0]], rt);
        } else {
            assert(kt =~= rt);
            assert(kf =~= seq![s[0]] + rf);
            lemma_item_keys_add(seq![s[0]], rf);
        }
        assert(spec_item_keys(spec_partition_items(s)) =~= spec_item_keys(s));
    }
}

/// Flat keys distribute over concatenation of flat sequences.
proof fn lemma_flat_keys_add(a: Seq<FlatItem>, b: Seq<FlatItem>)
    ensures
        spec_flat_decl_keys(a + b) == spec_flat_decl_keys(a).add(spec_flat_decl_keys(b)),
    decreases a.len(),
{
    broadcast use vstd::multiset::group_multiset_axioms;

    if a.len() == 0 {
        assert(a + b =~= b);
        assert(spec_flat_decl_keys(a + b) =~= spec_flat_decl_keys(a).add(
            spec_flat_decl_keys(b),
        ));
    } else {
        lemma_flat_keys_add(a.drop_first(), b);
        assert((a + b).drop_first() =~= a.drop_first() + b);
        assert((a + b)[0] == a[0]);
        assert(spec_flat_decl_keys(a + b) =~= spec_flat_decl_keys(a).add(
            spec_flat_decl_keys(b),
        ));
    }
}

/// A flat sequence without declaration nodes has no declaration keys.
proof fn lemma_flat_keys_none(s: Seq<FlatItem>)
    requires
        forall|i: int| 0 <= i < s.len() ==> spec_flat_key(#[trigger] s[i]) is None,
    ensures
        spec_flat_decl_keys(s) == Multiset::<(Option<Seq<char>>, DeclKind)>::empty(),
    decreases s.len(),
{
    if s.len() > 0 {
        lemma_flat_keys_none(s.drop_first());
    }
}

/// Attached implementation blocks contribute no declaration keys.
proof fn lemma_flat_impl_keys(l: crate::list::List<crate::items::implementation_item::ImplementationItem>)
    ensures
        spec_flat_decl_keys(spec_flat_impls(l)) == Multiset::<
            (Option<Seq<char>>, DeclKind),
        >::empty(),
    decreases l,
{
    match l {
        crate::list::List::Nil => {
            assert(spec_flat_impls(l) =~= Seq::<FlatItem>::empty());
        },
        crate::list::List::Cons(head, tail) => {
            lemma_flat_impl_keys(*tail);
            assert(spec_flat_impls(l)[0] == FlatItem::Impl(*head));
            assert(spec_flat_impls(l).drop_first() =~= spec_flat_impls(*tail));
        },
    }
}

/// The flat form of a declaration sequence keeps its declaration keys: each
/// declaration becomes exactly one declaration node, followed only by
/// implementation blocks.
proof fn lemma_flat_items_keys(s: Seq<Item>, flat: Seq<FlatItem>)
    requires
        spec_flat_items(s) == Some(flat),
    ensures
        spec_flat_decl_keys(flat) == spec_item_keys(s),
    decreases s.len(),
{
    broadcast use vstd::multiset::group_multiset_axioms;

    if s.len() == 0 {
        assert(flat =~= Seq::<FlatItem>::empty());
    } else {
        let first = spec_flat_item(s[0])->Some_0;
        let rest = spec_flat_items(s.drop_first())->Some_0;
        lemma_flat_items_keys(s.drop_first(), rest);
        lemma_flat_keys_add(first, rest);
        assert(flat == first + rest);
        assert(spec_flat_decl_keys(Seq::<FlatItem>::empty()) =~= Multiset::<
            (Option<Seq<char>>, DeclKind),
        >::empty());
        match s[0] {
            Item::Struct(si) => {
                lemma_flat_impl_keys(si.impl_items);
                assert(first == seq![FlatItem::Struct(si.item)] + spec_flat_impls(si.impl_items));
                assert(first[0] == FlatItem::Struct(si.item));
                assert(first.drop_first() =~= spec_flat_impls(si.impl_items));
                assert(spec_flat_decl_keys(first) =~= Multiset::empty().insert(
                    spec_item_key(s[0]),
                ));
            },
            Item::Enum(ei) => {
                lemma_flat_impl_keys(ei.impl_items);
                assert(first == seq![FlatItem::Enum(ei.item)] + spec_flat_impls(ei.impl_items));
                assert(first[0] == FlatItem::Enum(ei.item));
                assert(first.drop_first() =~= spec_flat_impls(ei.impl_items));
                assert(spec_flat_decl_keys(first) =~= Multiset::empty().insert(
                    spec_item_key(s[0]),
                ));
            },
            Item::Fn(f) => {
                match f.item {
                    crate::items::fn_item::FnType::Global(def) => {
                        assert(s[0] == Item::Fn(f));
                        assert(f.item == crate::items::fn_item::FnType::Global(def));
                        assert(spec_flat_item(s[0]) == Some(seq![FlatItem::Fn(def)]));
                        assert(first =~= seq![FlatItem::Fn(def)]);
                        assert(first[0] == FlatItem::Fn(def));
                        assert(first.drop_first() =~= Seq::<FlatItem>::empty());
                        assert(fn_item_ident_spec(
                            crate::items::fn_item::FnItem {
                                item: crate::items::fn_item::FnType::Global(def),
                            },
                        ) == fn_item_ident_spec(f));
                        assert(spec_flat_decl_keys(first) =~= Multiset::empty().insert(
                            spec_item_key(s[0]),
                        ));
                    },
                    crate::items::fn_item::FnType::Implementation(_) => {
                        assert(false);
                    },
                }
            },
            Item::Other(o) => {
                assert(spec_flat_item(s[0]) == Some(seq![FlatItem::Other(o)]));
                assert(first =~= seq![FlatItem::Other(o)]);
                assert(first[0] == FlatItem::Other(o));
                assert(first.drop_first() =~= Seq::<FlatItem>::empty());
                assert(spec_flat_decl_keys(first) =~= Multiset::empty().insert(
                    spec_item_key(s[0]),
                ));
            },
        }
        assert(spec_flat_decl_keys(flat) =~= spec_item_keys(s));
    }
}

/// Round trip on collision-free input: merging modules that share no
/// declared name and then decomposing the one resulting module yields the
/// same multiset of declarations — compared by identity and kind — as the
/// union of all the inputs' declarations; only the canonical ordering of
/// the declaration list changed.  The first premise is what `merge` ensures
/// of collision-free input; the second is what `decompose` ensures.
pub proof fn lemma_merge_round_trip(
    mods: Seq<ModuleItem>,
    merged: ModuleItem,
    flat: Seq<FlatItem>,
)
    requires
        spec_collision_free(mods),
        merged.items@ == spec_partition_items(spec_concat_items(mods)),
        spec_decompose(merged) == Some(flat),
    ensures
        spec_flat_decl_keys(flat) == spec_item_keys(spec_concat_items(mods)),
{
    let e_map = merged.extern_crate_items@.map_values(|e: ExternCrateItem| FlatItem::ExternCrate(e));
    let u_map = merged.use_items@.map_values(|u: UseItem| FlatItem::Use(u));
    let decls = spec_flat_items(merged.items@)->Some_0;
    assert(flat == e_map + u_map + decls);
    assert forall|i: int| 0 <= i < e_map.len() implies spec_flat_key(#[trigger] e_map[i])
        is None by {}
    assert forall|i: int| 0 <= i < u_map.len() implies spec_flat_key(#[trigger] u_map[i])
        is None by {}
    lemma_flat_keys_none(e_map);
    lemma_flat_keys_none(u_map);
    lemma_flat_keys_add(e_map + u_map, decls);
    lemma_flat_keys_add(e_map, u_map);
    lemma_flat_items_keys(merged.items@, decls);
    lemma_partition_keys(spec_concat_items(mods));
    broadcast use vstd::multiset::group_multiset_axioms;

    assert(spec_flat_decl_keys(flat) =~= spec_item_keys(spec_concat_items(mods)));
}

/// The import clause of a finished merge: the prefix paths name each merged
/// module's source identifier under `self`, and the imports are the
/// de-duplicated union with those prefixes stripped.
pub open spec fn spec_merged_uses(merged: ModuleItem, olds: Seq<ModuleItem>, prefixes: Seq<Path>) -> bool {
    &&& prefixes.len() == olds.len()
    &&& (forall|i: int|
        0 <= i < prefixes.len() ==> path_names(#[trigger] prefixes[i]) == seq![
            "self"@,
            olds[i].file_name@,
        ])
    &&& merged.use_items@ == spec_strip_prefixes(
        spec_dedup_uses(spec_concat_uses(olds)),
        prefixes,
        0,
    )
}

/// Modules with equal external-reference lists have equal unions of them.
proof fn lemma_concat_externs_eq(a: Seq<ModuleItem>, b: Seq<ModuleItem>)
    requires
        a.len() == b.len(),
        forall|m: int|
            0 <= m < a.len() ==> (#[trigger] a[m]).extern_crate_items
                == b[m].extern_crate_items,
    ensures
        spec_concat_externs(a) == spec_concat_externs(b),
    decreases a.len(),
{
    if a.len() > 0 {
        assert forall|m: int| 0 <= m < a.drop_first().len() implies (#[trigger] a.drop_first()[
            m
        ]).extern_crate_items == b.drop_first()[m].extern_crate_items by {
            assert(a.drop_first()[m] == a[m + 1]);
            assert(b.drop_first()[m] == b[m + 1]);
        }
        lemma_concat_externs_eq(a.drop_first(), b.drop_first());
        assert(spec_concat_externs(a) =~= spec_concat_externs(b));
    }
}

/// Modules with equal import lists have equal unions of them.
proof fn lemma_concat_uses_eq(a: Seq<ModuleItem>, b: Seq<ModuleItem>)
    requires
        a.len() == b.len(),
        forall|m: int| 0 <= m < a.len() ==> (#[trigger] a[m]).use_items == b[m].use_items,
    ensures
        spec_concat_uses(a) == spec_concat_uses(b),
    decreases a.len(),
{
    if a.len() > 0 {
        assert forall|m: int| 0 <= m < a.drop_first().len() implies (#[trigger] a.drop_first()[
            m
        ]).use_items == b.drop_first()[m].use_items by {
            assert(a.drop_first()[m] == a[m + 1]);
            assert(b.drop_first()[m] == b[m + 1]);
        }
        lemma_concat_uses_eq(a.drop_first(), b.drop_first());
        assert(spec_concat_uses(a) =~= spec_concat_uses(b));
    }
}

impl SourceFile {
    /// Whether the module at the given position declares the name, scanning
    /// from declaration `k`.
    fn module_declares_from(m: &ModuleItem, name: &String, k: usize) -> (r: bool)
        requires
            k <= m.items@.len(),
        ensures
            r == exists|t: int|
                k <= t < m.items@.len() && item_ident_spec(#[trigger] m.items@[t]) == Some(
                    name@,
                ),
        decreases m.items@.len() - k,
    {
        if k >= m.items.len() {
            false
        } else {
            let matched = match m.items[k].ident() {
                Result::Ok(n) => n.eq(name),
                Result::Err(_) => false,
            };
            if matched {
                true
            } else {
                Self::module_declares_from(m, name, k + 1)
            }
        }
    }

    /// Whether the module declares the name.
    fn module_declares(m: &ModuleItem, name: &String) -> (r: bool)
        ensures
            r == spec_module_declares(*m, name@),
    {
        Self::module_declares_from(m, name, 0)
    }

    /// Whether two distinct modules declare the name, scanning from `i`.
    fn two_declare_from(&self, name: &String, i: usize) -> (r: bool)
        requires
            i <= self.modules@.len(),
        ensures
            r == spec_two_declare_from(self.modules@, name@, i as int),
        decreases self.modules@.len() - i,
    {
        if i >= self.modules.len() {
            false
        } else {
            if Self::module_declares(&self.modules[i], name) {
                self.one_declares_from(name, i + 1)
            } else {
                self.two_declare_from(name, i + 1)
            }
        }
    }

    /// Whether some module at or after `i` declares the name.
    fn one_declares_from(&self, name: &String, i: usize) -> (r: bool)
        requires
            i <= self.modules@.len(),
        ensures
            r == spec_one_declares_from(self.modules@, name@, i as int),
        decreases self.modules@.len() - i,
    {
        if i >= self.modules.len() {
            false
        } else {
            if Self::module_declares(&self.modules[i], name) {
                true
            } else {
                self.one_declares_from(name, i + 1)
            }
        }
    }

    /// The names declared in two or more modules, without duplicates, in
    /// first-occurrence order.
    fn collect_collisions(&self) -> (r: Vec<String>)
        ensures
            forall|t: int|
                0 <= t < r@.len() ==> spec_two_declare(self.modules@, (#[trigger] r@[t])@),
            forall|t: int, u: int|
                0 <= t < u < r@.len() ==> (#[trigger] r@[t])@ != (#[trigger] r@[u])@,
            forall|n: Seq<char>|
                spec_two_declare(self.modules@, n) ==> spec_names_contain(strings_view(r@), n),
            spec_collision_free(self.modules@) ==> r@.len() == 0,
    {
        let ghost mods = self.modules@;
        let mut found: Vec<String> = Vec::new();
        let mut i: usize = 0;
        while i < self.modules.len()
            invariant
                mods == self.modules@,
                0 <= i <= mods.len(),
                forall|t: int|
                    0 <= t < found@.len() ==> spec_two_declare(mods, (#[trigger] found@[t])@),
                forall|t: int, u: int|
                    0 <= t < u < found@.len() ==> (#[trigger] found@[t])@ != (
                    #[trigger] found@[u])@,
                spec_scanned_recorded(mods, found@, i as int, 0),
            decreases mods.len() - i,
        {
            let mut k: usize = 0;
            while k < self.modules[i].items.len()
                invariant
                    mods == self.modules@,
                    0 <= i < mods.len(),
                    0 <= k <= mods[i as int].items@.len(),
                    forall|t: int|
                        0 <= t < found@.len() ==> spec_two_declare(
                            mods,
                            (#[trigger] found@[t])@,
                        ),
                    forall|t: int, u: int|
                        0 <= t < u < found@.len() ==> (#[trigger] found@[t])@ != (
                        #[trigger] found@[u])@,
                    spec_scanned_recorded(mods, found@, i as int, k as int),
                decreases mods[i as int].items@.len() - k,
            {
                let ghost f0 = found@;
                match self.modules[i].items[k].ident() {
                    Result::Ok(name) => {
                        let ghost nv = name@;
                        let had = Self::contains_string(&found, &name);
                        let two = self.two_declare_from(&name, 0);
                        if !had && two {
                            found.push(name);
                            proof {
                                assert(strings_view(found@) =~= strings_view(f0).push(nv));
                                assert(strings_view(found@)[f0.len() as int] == nv);
                                assert(spec_names_contain(strings_view(found@), nv));
                            }
                        }
                        proof {
                            if had {
                                let j = choose|j: int| 0 <= j < f0.len() && (#[trigger] f0[j])@
                                    == nv;
                                assert(strings_view(f0)[j] == nv);
                                assert(spec_names_contain(strings_view(f0), nv));
                            }
                            assert forall|v: Seq<char>|
                                spec_names_contain(strings_view(f0), v) implies
                                spec_names_contain(strings_view(found@), v) by {
                                let t = choose|t: int|
                                    0 <= t < strings_view(f0).len() && strings_view(f0)[t]
                                        == v;
                                assert(strings_view(found@)[t] == v);
                            }
                            assert(item_ident_spec(mods[i as int].items@[k as int]) == Some(
                                nv,
                            ));
                            if spec_two_declare(mods, nv) {
                                assert(spec_names_contain(strings_view(found@), nv));
                            }
                        }
                    },
                    Result::Err(_) => {
                        proof {
                            assert(item_ident_spec(mods[i as int].items@[k as int]) is None);
                        }
                    },
                }
                k = k + 1;
                proof {
                    assert forall|a: int, kk: int|
                        (0 <= a < mods.len() && 0 <= kk < mods[a].items@.len() && (a < i
                            || (a == i && kk < k))) implies match item_ident_spec(
                        #[trigger] mods[a].items@[kk],
                    ) {
                        Option::Some(v) => spec_two_declare(mods, v) ==> spec_names_contain(
                            strings_view(found@),
                            v,
                        ),
                        Option::None => true,
                    } by {
                        if a < i || (a == i && kk < k - 1) {
                            assert(spec_scanned_recorded(mods, f0, i as int, k - 1));
                        }
                    }
                }
            }
            i = i + 1;
            proof {
                assert(spec_scanned_recorded(mods, found@, i as int, 0));
            }
        }
        proof {
            assert forall|n: Seq<char>| spec_two_declare(mods, n) implies spec_names_contain(
                strings_view(found@),
                n,
            ) by {
                let (a, b) = choose|a: int, b: int|
                    0 <= a < b < mods.len() && spec_module_declares(#[trigger] mods[a], n)
                        && spec_module_declares(#[trigger] mods[b], n);
                let kk = choose|kk: int|
                    0 <= kk < mods[a].items@.len() && item_ident_spec(
                        #[trigger] mods[a].items@[kk],
                    ) == Some(n);
                assert(spec_scanned_recorded(mods, found@, mods.len() as int, 0));
                assert(a < mods.len());
            }
            if spec_collision_free(mods) && found@.len() > 0 {
                assert(spec_two_declare(mods, found@[0]@));
            }
        }
        found
    }

    /// Whether the vector holds a string with the same characters.
    fn contains_string(v: &Vec<String>, s: &String) -> (r: bool)
        ensures
            r == exists|j: int| 0 <= j < v@.len() && (#[trigger] v@[j])@ == s@,
    {
        let mut j: usize = 0;
        while j < v.len()
            invariant
                0 <= j <= v@.len(),
                forall|t: int| 0 <= t < j ==> (#[trigger] v@[t])@ != s@,
            decreases v@.len() - j,
        {
            if v[j].eq(s) {
                return true;
            }
            j = j + 1;
        }
        false
    }

    /// Resolve name collisions: for each name declared in two or more
    /// modules, in each owning module, strip the module's own name from the
    /// declared name wherever it occurs, prepend the module name, and rename
    /// every occurrence inside that module's declarations.  The rewrite is
    /// module-local only: other modules' references to the old name are left
    /// unchanged.  Collision-free input always succeeds, unchanged; a
    /// failure (an unsupported construct inside a renamed module) leaves
    /// every module's name, source identifier, imports and external
    /// references in place, though declaration lists may be left partially
    /// renamed and the failing module's declarations are dropped.
    pub fn resolve_ident_conflicts(&mut self) -> (r: Result<(), Error>)
        ensures
            r is Ok ==> {
                &&& final(self).attributes == old(self).attributes
                &&& final(self).modules@.len() == old(self).modules@.len()
                &&& forall|m: int|
                    0 <= m < old(self).modules@.len() ==> {
                        let before = #[trigger] old(self).modules@[m];
                        let after = final(self).modules@[m];
                        &&& after.name == before.name
                        &&& after.file_name == before.file_name
                        &&& after.extern_crate_items == before.extern_crate_items
                        &&& after.use_items == before.use_items
                    }
                &&& spec_resolved(old(self).modules@, final(self).modules@)
                &&& (spec_collision_free(old(self).modules@) ==> final(self).modules
                    == old(self).modules)
            },
            spec_collision_free(old(self).modules@) ==> r is Ok,
            r is Err ==> {
                &&& !spec_collision_free(old(self).modules@)
                &&& spec_rename_aborted(old(self).modules@, final(self).modules@)
                &&& final(self).attributes == old(self).attributes
                &&& final(self).modules@.len() == old(self).modules@.len()
                &&& forall|m: int|
                    0 <= m < old(self).modules@.len() ==> {
                        let before = #[trigger] old(self).modules@[m];
                        let after = final(self).modules@[m];
                        &&& after.name == before.name
                        &&& after.file_name == before.file_name
                        &&& after.extern_crate_items == before.extern_crate_items
                        &&& after.use_items == before.use_items
                    }
            },
    {
        let ghost mods0 = self.modules@;
        let collisions = self.collect_collisions();
        let ghost names = strings_view(collisions@);
        if collisions.len() == 0 {
            proof {
                assert(names =~= Seq::<Seq<char>>::empty());
                assert(spec_resolve_names(names, mods0, mods0));
                assert(spec_resolved(mods0, mods0));
            }
            return Result::Ok(());
        }
        proof {
            assert(spec_two_declare(mods0, collisions@[0]@));
            assert(!spec_collision_free(mods0));
        }
        let mut t: usize = 0;
        while t < collisions.len()
            invariant
                mods0 == old(self).modules@,
                names == strings_view(collisions@),
                names.len() == collisions@.len(),
                0 <= t <= collisions@.len(),
                !spec_collision_free(mods0),
                self.attributes == old(self).attributes,
                self.modules@.len() == mods0.len(),
                forall|m: int|
                    0 <= m < mods0.len() ==> {
                        let before = #[trigger] mods0[m];
                        let after = self.modules@[m];
                        &&& after.name == before.name
                        &&& after.file_name == before.file_name
                        &&& after.extern_crate_items == before.extern_crate_items
                        &&& after.use_items == before.use_items
                    },
                spec_resolve_names(names.subrange(0, t as int), mods0, self.modules@),
                forall|u: int|
                    0 <= u < names.len() ==> spec_two_declare(mods0, #[trigger] names[u]),
                forall|u: int, w: int| 0 <= u < w < names.len() ==> names[u] != names[w],
                forall|n: Seq<char>|
                    spec_two_declare(mods0, n) ==> spec_names_contain(names, n),
            decreases collisions@.len() - t,
        {
            let ghost st = self.modules@;
            let ghost n = collisions@[t as int]@;
            proof {
                assert(names[t as int] == n);
            }
            let mut mi: usize = 0;
            while mi < self.modules.len()
                invariant
                    mods0 == old(self).modules@,
                    names == strings_view(collisions@),
                    names.len() == collisions@.len(),
                    !spec_collision_free(mods0),
                    self.attributes == old(self).attributes,
                    self.modules@.len() == mods0.len(),
                    st.len() == mods0.len(),
                    0 <= mi <= self.modules@.len(),
                    0 <= t < collisions@.len(),
                    n == collisions@[t as int]@,
                    n == names[t as int],
                    forall|m: int|
                        0 <= m < mods0.len() ==> {
                            let before = #[trigger] mods0[m];
                            let after = self.modules@[m];
                            &&& after.name == before.name
                            &&& after.file_name == before.file_name
                            &&& after.extern_crate_items == before.extern_crate_items
                            &&& after.use_items == before.use_items
                        },
                    spec_resolve_names(names.subrange(0, t as int), mods0, st),
                    forall|m: int| mi <= m < st.len() ==> self.modules@[m] == #[trigger] st[m],
                    forall|m: int|
                        0 <= m < mi ==> if spec_module_declares(#[trigger] st[m], n) {
                            spec_module_renamed(n, st[m], self.modules@[m])
                        } else {
                            self.modules@[m] == st[m]
                        },
                    forall|u: int|
                        0 <= u < names.len() ==> spec_two_declare(mods0, #[trigger] names[u]),
                    forall|u: int, w: int| 0 <= u < w < names.len() ==> names[u] != names[w],
                    forall|n2: Seq<char>|
                        spec_two_declare(mods0, n2) ==> spec_names_contain(names, n2),
                decreases self.modules@.len() - mi,
            {
                let declares = Self::module_declares(&self.modules[mi], &collisions[t]);
                if declares {
                    let ghost pre = self.modules@;
                    let mut module = self.modules.remove(mi);
                    let ghost bm = module;
                    proof {
                        assert(bm == st[mi as int]);
                    }
                    let stripped = remove_occurrences(&collisions[t], &module.name);
                    let mut renamed = module.name.clone();
                    renamed.append(stripped.as_str());
                    let from_name = collisions[t].clone();
                    let ghost fg = from_name;
                    let ghost tg = renamed;
                    let mut ctx = RenameContext { from: from_name, to: renamed };
                    let ghost c0 = ctx;
                    let mut items = Vec::new();
                    core::mem::swap(&mut module.items, &mut items);
                    let ghost ig = items@;
                    match walk_item_vec(items, &mut ctx) {
                        Result::Ok(items2) => {
                            let ghost cf = ctx;
                            let ghost i2 = items2@;
                            module.items = items2;
                            let ghost am = module;
                            self.modules.insert(mi, module);
                            proof {
                                assert(self.modules@ =~= pre.update(mi as int, am));
                                assert(fg@ == n);
                                assert(tg@ == bm.name@ + spec_remove_occurrences(n, bm.name@));
                                assert(c0 == rename_context_spec(fg, tg));
                                assert(ig == bm.items@);
                                assert(walk_item_vec_spec(
                                    rename_context_spec(fg, tg),
                                    bm.items@,
                                ) == Some((cf, i2)));
                                assert(am.items@ == i2);
                                assert(spec_module_renamed(n, bm, am));
                                assert forall|m: int| 0 <= m < mi + 1 implies (
                                if spec_module_declares(#[trigger] st[m], n) {
                                    spec_module_renamed(n, st[m], self.modules@[m])
                                } else {
                                    self.modules@[m] == st[m]
                                }) by {
                                    if m < mi {
                                        assert(self.modules@[m] == pre[m]);
                                    } else {
                                        assert(self.modules@[m] == am);
                                        assert(st[m] == bm);
                                    }
                                }
                                assert forall|m: int| 0 <= m < mods0.len() implies {
                                    let before = #[trigger] mods0[m];
                                    let after = self.modules@[m];
                                    &&& after.name == before.name
                                    &&& after.file_name == before.file_name
                                    &&& after.extern_crate_items == before.extern_crate_items
                                    &&& after.use_items == before.use_items
                                } by {
                                    if m != mi {
                                        assert(self.modules@[m] == pre[m]);
                                    } else {
                                        assert(self.modules@[m] == am);
                                    }
                                }
                            }
                        },
                        Result::Err(e) => {
                            let ghost cf = ctx;
                            module.items = Vec::new();
                            let ghost am = module;
                            self.modules.insert(mi, module);
                            proof {
                                assert(self.modules@ =~= pre.update(mi as int, am));
                                assert forall|m: int| 0 <= m < mods0.len() implies {
                                    let before = #[trigger] mods0[m];
                                    let after = self.modules@[m];
                                    &&& after.name == before.name
                                    &&& after.file_name == before.file_name
                                    &&& after.extern_crate_items == before.extern_crate_items
                                    &&& after.use_items == before.use_items
                                } by {
                                    if m != mi {
                                        assert(self.modules@[m] == pre[m]);
                                    } else {
                                        assert(self.modules@[m] == am);
                                        assert(am.name == bm.name);
                                    }
                                }
                                assert(fg@ == n);
                                assert(spec_two_declare(mods0, n));
                                assert(bm.name == mods0[mi as int].name);
                                assert(tg@ == mods0[mi as int].name@ + spec_remove_occurrences(
                                    n,
                                    mods0[mi as int].name@,
                                ));
                                assert(c0 == rename_context_spec(fg, tg));
                                assert(walk_item_vec_spec(rename_context_spec(fg, tg), ig)
                                    is None);
                                assert(self.modules@[mi as int].items@ =~= Seq::<
                                    Item,
                                >::empty());
                                assert(spec_rename_aborted(mods0, self.modules@));
                            }
                            return Result::Err(e);
                        },
                    }
                } else {
                    proof {
                        assert(self.modules@[mi as int] == st[mi as int]);
                        assert(!spec_module_declares(st[mi as int], n));
                    }
                }
                mi = mi + 1;
            }
            proof {
                assert(spec_resolve_name(n, st, self.modules@));
                lemma_resolve_names_push(
                    names.subrange(0, t as int),
                    n,
                    mods0,
                    st,
                    self.modules@,
                );
                assert(names.subrange(0, t as int).push(n) =~= names.subrange(0, t + 1));
            }
            t = t + 1;
        }
        proof {
            assert(names.subrange(0, collisions@.len() as int) =~= names);
            assert(spec_resolve_names(names, mods0, self.modules@));
            assert(spec_resolved(mods0, self.modules@));
        }
        Result::Ok(())
    }

    /// Merge every module into one: resolve collisions, take the union of
    /// external references, imports and declarations in module order,
    /// de-duplicate external references by name and imports by printed form,
    /// drop imports that refer into the merged modules themselves, and put
    /// every freestanding-function declaration in front.  The one resulting
    /// module carries an empty name.  Collision-free input always succeeds;
    /// a failure can only come out of collision resolution, and leaves every
    /// module's name, source identifier, imports and external references in
    /// place.
    pub fn merge(&mut self) -> (r: Result<(), Error>)
        ensures
            r is Ok ==> {
                let merged = final(self).modules@[0];
                &&& final(self).modules@.len() == 1
                &&& final(self).attributes == old(self).attributes
                &&& merged.name@ == Seq::<char>::empty()
                &&& merged.file_name@ == Seq::<char>::empty()
                &&& merged.extern_crate_items@ == spec_dedup_externs(
                    spec_concat_externs(old(self).modules@),
                )
                &&& exists|prefixes: Seq<Path>|
                    spec_merged_uses(merged, old(self).modules@, prefixes)
                &&& spec_fn_first(merged.items@)
                &&& exists|resolved: Seq<ModuleItem>|
                    #![trigger spec_resolved(old(self).modules@, resolved)]
                    {
                        &&& spec_resolved(old(self).modules@, resolved)
                        &&& merged.items@ == spec_partition_items(spec_concat_items(resolved))
                    }
                &&& (spec_collision_free(old(self).modules@) ==> merged.items@
                    == spec_partition_items(spec_concat_items(old(self).modules@)))
            },
            spec_collision_free(old(self).modules@) ==> r is Ok,
            r is Err ==> {
                &&& !spec_collision_free(old(self).modules@)
                &&& spec_rename_aborted(old(self).modules@, final(self).modules@)
                &&& final(self).attributes == old(self).attributes
                &&& final(self).modules@.len() == old(self).modules@.len()
                &&& forall|m: int|
                    0 <= m < old(self).modules@.len() ==> {
                        let before = #[trigger] old(self).modules@[m];
                        let after = final(self).modules@[m];
                        &&& after.name == before.name
                        &&& after.file_name == before.file_name
                        &&& after.extern_crate_items == before.extern_crate_items
                        &&& after.use_items == before.use_items
                    }
            },
    {
        let ghost mods_in = self.modules@;
        match self.resolve_ident_conflicts() {
            Result::Ok(_) => {},
            Result::Err(e) => {
                return Result::Err(e);
            },
        }
        let ghost resolved = self.modules@;
        let mut modules = Vec::new();
        core::mem::swap(&mut self.modules, &mut modules);
        let mut externs: Vec<ExternCrateItem> = Vec::new();
        let mut uses: Vec<UseItem> = Vec::new();
        let mut items: Vec<Item> = Vec::new();
        let mut prefixes: Vec<Path> = Vec::new();
        while modules.len() > 0
            invariant
                resolved.len() >= modules@.len(),
                prefixes@.len() == resolved.len() - modules@.len(),
                modules@ == resolved.skip(prefixes@.len() as int),
                forall|i: int|
                    0 <= i < prefixes@.len() ==> path_names(#[trigger] prefixes@[i]) == seq![
                        "self"@,
                        resolved[i].file_name@,
                    ],
                externs@ + spec_concat_externs(modules@) == spec_concat_externs(resolved),
                uses@ + spec_concat_uses(modules@) == spec_concat_uses(resolved),
                items@ + spec_concat_items(modules@) == spec_concat_items(resolved),
            decreases modules@.len(),
        {
            let ghost ms = modules@;
            let mut module = modules.remove(0);
            proof {
                assert(ms[0] == resolved[prefixes@.len() as int]);
            }
            let prefix = Path::new("self").join(module.file_name.as_str());
            prefixes.push(prefix);
            let ghost e0 = externs@;
            let ghost u0 = uses@;
            let ghost i0 = items@;
            externs.append(&mut module.extern_crate_items);
            uses.append(&mut module.use_items);
            items.append(&mut module.items);
            proof {
                assert(modules@ =~= resolved.skip(prefixes@.len() as int));
                assert(externs@ + spec_concat_externs(modules@) =~= spec_concat_externs(
                    resolved,
                ));
                assert(uses@ + spec_concat_uses(modules@) =~= spec_concat_uses(resolved));
                assert(items@ + spec_concat_items(modules@) =~= spec_concat_items(resolved));
            }
        }
        proof {
            assert(externs@ =~= spec_concat_externs(resolved));
            assert(uses@ =~= spec_concat_uses(resolved));
            assert(items@ =~= spec_concat_items(resolved));
        }
        let externs2 = Self::dedup_externs(externs);
        let uses2 = Self::dedup_uses(uses);
        let ghost deduped = uses2@;
        let mut uses2 = uses2;
        let mut p: usize = 0;
        while p < prefixes.len()
            invariant
                0 <= p <= prefixes@.len(),
                uses2@ == spec_strip_prefixes_upto(deduped, prefixes@, p as int),
            decreases prefixes@.len() - p,
        {
            uses2 = ModuleItem::keep_use_items(uses2, &prefixes[p]);
            p = p + 1;
            proof {
                lemma_strip_prefixes_step(deduped, prefixes@, p as int);
            }
        }
        proof {
            lemma_strip_prefixes_full(deduped, prefixes@);
        }
        let (fns, others) = Self::partition_items(items);
        let mut merged_items = fns;
        let mut others = others;
        merged_items.append(&mut others);
        let merged = ModuleItem {
            name: String::new(),
            file_name: String::new(),
            extern_crate_items: externs2,
            use_items: uses2,
            items: merged_items,
        };
        let ghost mg = merged;
        let ghost pg = prefixes@;
        let mut result_modules: Vec<ModuleItem> = Vec::new();
        result_modules.push(merged);
        self.modules = result_modules;
        proof {
            lemma_partition_fn_first(spec_concat_items(resolved));
            lemma_concat_externs_eq(resolved, mods_in);
            lemma_concat_uses_eq(resolved, mods_in);
            assert(self.modules@[0] == mg);
            assert(mg.items@ == spec_partition_items(spec_concat_items(resolved)));
            assert(spec_merged_uses(mg, mods_in, pg));
            assert(spec_resolved(mods_in, resolved));
            if spec_collision_free(mods_in) {
                assert(resolved =~= mods_in);
            }
        }
        Result::Ok(())
    }

    /// De-duplicate external references by name, first occurrence winning.
    fn dedup_externs(v: Vec<ExternCrateItem>) -> (r: Vec<ExternCrateItem>)
        ensures
            r@ == spec_dedup_externs(v@),
        decreases v@.len(),
    {
        let ghost v0 = v@;
        let mut v = v;
        if v.len() == 0 {
            v
        } else {
            let last = v.pop().unwrap();
            let dup = Self::extern_named_before(&v, &last.ident);
            let rest = Self::dedup_externs(v);
            proof {
                assert(v0.drop_last() =~= v0.subrange(0, v0.len() - 1));
                assert(last == v0.last());
                if dup {
                    let j = choose|j: int|
                        0 <= j < v@.len() && (#[trigger] v@[j]).ident@ == last.ident@;
                    assert(v0[j] == v@[j]);
                    assert((exists|j: int|
                        0 <= j < v0.len() - 1 && (#[trigger] v0[j]).ident@
                            == v0.last().ident@));
                } else {
                    assert forall|j: int| 0 <= j < v0.len() - 1 implies (#[trigger] v0[j]).ident@
                        != v0.last().ident@ by {
                        assert(v0[j] == v@[j]);
                    }
                }
            }
            if dup {
                rest
            } else {
                let mut rest = rest;
                rest.push(last);
                rest
            }
        }
    }

    /// Whether some entry carries the name.
    fn extern_named_before(v: &Vec<ExternCrateItem>, name: &String) -> (r: bool)
        ensures
            r == exists|j: int| 0 <= j < v@.len() && (#[trigger] v@[j]).ident@ == name@,
    {
        let mut j: usize = 0;
        while j < v.len()
            invariant
                0 <= j <= v@.len(),
                forall|t: int| 0 <= t < j ==> (#[trigger] v@[t]).ident@ != name@,
            decreases v@.len() - j,
        {
            if v[j].ident.eq(name) {
                return true;
            }
            j = j + 1;
        }
        false
    }

    /// De-duplicate imports by printed form, first occurrence winning.
    fn dedup_uses(v: Vec<UseItem>) -> (r: Vec<UseItem>)
        ensures
            r@ == spec_dedup_uses(v@),
        decreases v@.len(),
    {
        let ghost v0 = v@;
        let mut v = v;
        if v.len() == 0 {
            v
        } else {
            let last = v.pop().unwrap();
            let key = last.to_string();
            let dup = Self::use_printed_before(&v, &key);
            let rest = Self::dedup_uses(v);
            proof {
                assert(v0.drop_last() =~= v0.subrange(0, v0.len() - 1));
                assert(last == v0.last());
                if dup {
                    let j = choose|j: int|
                        0 <= j < v@.len() && use_tree_str((#[trigger] v@[j]).0) == key@;
                    assert(v0[j] == v@[j]);
                    assert((exists|j: int|
                        0 <= j < v0.len() - 1 && use_tree_str((#[trigger] v0[j]).0)
                            == use_tree_str(v0.last().0)));
                } else {
                    assert forall|j: int| 0 <= j < v0.len() - 1 implies use_tree_str(
                        (#[trigger] v0[j]).0,
                    ) != use_tree_str(v0.last().0) by {
                        assert(v0[j] == v@[j]);
                    }
                }
            }
            if dup {
                rest
            } else {
                let mut rest = rest;
                rest.push(last);
                rest
            }
        }
    }

    /// Whether some import prints to the given form.
    fn use_printed_before(v: &Vec<UseItem>, key: &String) -> (r: bool)
        ensures
            r == exists|j: int| 0 <= j < v@.len() && use_tree_str((#[trigger] v@[j]).0) == key@,
    {
        let mut j: usize = 0;
        while j < v.len()
            invariant
                0 <= j <= v@.len(),
                forall|t: int| 0 <= t < j ==> use_tree_str((#[trigger] v@[t]).0) != key@,
            decreases v@.len() - j,
        {
            let printed = v[j].to_string();
            if printed.eq(key) {
                return true;
            }
            j = j + 1;
        }
        false
    }

    /// Stable-partition the declarations: freestanding-function
    /// passthroughs, then the rest, each in the original order.
    fn partition_items(v: Vec<Item>) -> (r: (Vec<Item>, Vec<Item>))
        ensures
            r.0@ == spec_keep_kind(v@, true),
            r.1@ == spec_keep_kind(v@, false),
        decreases v@.len(),
    {
        let ghost v0 = v@;
        let mut v = v;
        if v.len() == 0 {
            let a: Vec<Item> = Vec::new();
            let b: Vec<Item> = Vec::new();
            proof {
                assert(a@ =~= spec_keep_kind(v0, true));
                assert(b@ =~= spec_keep_kind(v0, false));
            }
            (a, b)
        } else {
            let head = v.remove(0);
            proof {
                assert(v@ =~= v0.drop_first());
            }
            let is_fn = match &head {
                Item::Other(o) => o.is_fn(),
                _ => false,
            };
            let ghost h0 = head;
            let (fns, others) = Self::partition_items(v);
            if is_fn {
                let mut out: Vec<Item> = Vec::new();
                out.push(head);
                let mut fns = fns;
                out.append(&mut fns);
                proof {
                    assert(out@ =~= seq![h0] + spec_keep_kind(v0.drop_first(), true));
                }
                (out, others)
            } else {
                let mut out: Vec<Item> = Vec::new();
                out.push(head);
                let mut others = others;
                out.append(&mut others);
                proof {
                    assert(out@ =~= seq![h0] + spec_keep_kind(v0.drop_first(), false));
                }
                (fns, out)
            }
        }
    }
}

/// The imports left after stripping the first `i` prefixes.
pub open spec fn spec_strip_prefixes_upto(uses: Seq<UseItem>, prefixes: Seq<Path>, i: int) -> Seq<
    UseItem,
>
    decreases i,
{
    if i <= 0 {
        uses
    } else {
        spec_keep_use_items(spec_strip_prefixes_upto(uses, prefixes, i - 1), prefixes[i - 1])
    }
}

/// One more stripped prefix extends the left fold.
proof fn lemma_strip_prefixes_step(uses: Seq<UseItem>, prefixes: Seq<Path>, i: int)
    requires
        0 < i <= prefixes.len(),
    ensures
        spec_strip_prefixes_upto(uses, prefixes, i) == spec_keep_use_items(
            spec_strip_prefixes_upto(uses, prefixes, i - 1),
            prefixes[i - 1],
        ),
{
}

/// Stripping all prefixes from the front equals the fold over every prefix.
proof fn lemma_strip_prefixes_full(uses: Seq<UseItem>, prefixes: Seq<Path>)
    ensures
        spec_strip_prefixes_upto(uses, prefixes, prefixes.len() as int) == spec_strip_prefixes(
            uses,
            prefixes,
            0,
        ),
{
    lemma_strip_prefixes_shift(uses, prefixes, prefixes.len() as int);
    assert(prefixes.subrange(0, prefixes.len() as int) =~= prefixes);
}

/// The left fold up to `i` equals the right recursion started at 0 and cut
/// at `i` prefixes, for every cut.
proof fn lemma_strip_prefixes_shift(uses: Seq<UseItem>, prefixes: Seq<Path>, i: int)
    requires
        0 <= i <= prefixes.len(),
    ensures
        spec_strip_prefixes_upto(uses, prefixes, i) == spec_strip_prefixes(
            uses,
            prefixes.subrange(0, i),
            0,
        ),
    decreases i,
{
    if i == 0 {
        assert(prefixes.subrange(0, 0) =~= Seq::<Path>::empty());
    } else {
        lemma_strip_prefixes_shift(uses, prefixes, i - 1);
        lemma_strip_append(uses, prefixes.subrange(0, i - 1), prefixes[i - 1]);
        assert(prefixes.subrange(0, i - 1).push(prefixes[i - 1]) =~= prefixes.subrange(0, i));
    }
}

/// Appending a prefix to the list applies one more strip at the end.
proof fn lemma_strip_append(uses: Seq<UseItem>, prefixes: Seq<Path>, last: Path)
    ensures
        spec_strip_prefixes(uses, prefixes.push(last), 0) == spec_keep_use_items(
            spec_strip_prefixes(uses, prefixes, 0),
            last,
        ),
    decreases prefixes.len(),
{
    lemma_strip_append_from(uses, prefixes, last, 0);
}

/// As `lemma_strip_append`, from any starting position.
proof fn lemma_strip_append_from(uses: Seq<UseItem>, prefixes: Seq<Path>, last: Path, i: int)
    requires
        0 <= i <= prefixes.len(),
    ensures
        spec_strip_prefixes(uses, prefixes.push(last), i) == spec_keep_use_items(
            spec_strip_prefixes(uses, prefixes, i),
            last,
        ),
    decreases prefixes.len() - i,
{
    if i < prefixes.len() {
        lemma_strip_append_from(spec_keep_use_items(uses, prefixes[i]), prefixes, last, i + 1);
        assert(prefixes.push(last)[i] == prefixes[i]);
    } else {
        assert(prefixes.push(last)[i] == last);
        assert(spec_strip_prefixes(uses, prefixes, i) == uses);
        assert(spec_strip_prefixes(spec_keep_use_items(uses, last), prefixes.push(last), i + 1)
            == spec_keep_use_items(uses, last));
    }
}

} // verus!
