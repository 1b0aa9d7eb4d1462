//! For every node kind the walker covers, a minimal tree of that kind is
//! walked with the rename pass installed, and each structurally owned child
//! must show the rewrite.

use srcmerge::ast::{
    AngleBracketedGenericArguments, Arm, BareFnArg, CapturedParam, Expr, Field, FieldPat,
    FieldValue, Fields, GenericArg, GenericParam, Generics, LocalInit, MacroInvocation, Member,
    ParenthesizedGenericArguments, Pat, PathArguments, Signature, Stmt, Type, TypeParamBound,
    Variant, WhereClause, WherePredicate,
};
use srcmerge::error::Error;
use srcmerge::functions::rename;
use srcmerge::items::enum_item::{EnumItem, ItemEnum};
use srcmerge::items::fn_item::{FnDef, FnItem, FnType};
use srcmerge::items::implementation_item::{ImplMember, ImplementationItem, ItemImpl};
use srcmerge::items::item::Item;
use srcmerge::items::other_item::{OtherItem, OtherNode, TraitMember};
use srcmerge::items::struct_item::{ItemStruct, StructItem};
use srcmerge::list::List;
use srcmerge::utils::path::{Path, PathSegment};

fn lst<T>(v: Vec<T>) -> List<T> {
    List::from_vec(v)
}

fn p(name: &str) -> Path {
    Path::new(name)
}

fn xe() -> Expr {
    Expr::Path(None, p("x"))
}

fn ye() -> Expr {
    Expr::Path(None, p("y"))
}

fn xt() -> Type {
    Type::Path(None, p("x"))
}

fn yt() -> Type {
    Type::Path(None, p("y"))
}

fn xpat() -> Pat {
    Pat::Ident("x".to_string())
}

fn ypat() -> Pat {
    Pat::Ident("y".to_string())
}

fn xs() -> Stmt {
    Stmt::Expr(Box::new(xe()), true)
}

fn ys() -> Stmt {
    Stmt::Expr(Box::new(ye()), true)
}

fn rn(e: Expr) -> Expr {
    let mut e = e;
    rename::from_expr(&mut e, &"x".to_string(), &"y".to_string()).unwrap();
    e
}

fn rnt(t: Type) -> Type {
    let mut t = t;
    rename::from_type(&mut t, &"x".to_string(), &"y".to_string()).unwrap();
    t
}

fn rni(it: Item) -> Item {
    let mut it = it;
    rename::from_item(&mut it, &"x".to_string(), &"y".to_string()).unwrap();
    it
}

fn empty_generics() -> Generics {
    Generics { params: List::Nil, where_clause: None }
}

fn x_generics() -> Generics {
    Generics {
        params: lst(vec![GenericParam::Type("T".to_string(), List::Nil, Some(Box::new(xt())))]),
        where_clause: Some(WhereClause {
            predicates: lst(vec![WherePredicate::Type(None, xt(), List::Nil)]),
        }),
    }
}

fn y_generics() -> Generics {
    Generics {
        params: lst(vec![GenericParam::Type("T".to_string(), List::Nil, Some(Box::new(yt())))]),
        where_clause: Some(WhereClause {
            predicates: lst(vec![WherePredicate::Type(None, yt(), List::Nil)]),
        }),
    }
}

#[test]
fn expr_kinds_visit_every_owned_child() {
    let b = |e: Expr| Box::new(e);
    assert_eq!(rn(Expr::Array(lst(vec![xe()]))), Expr::Array(lst(vec![ye()])));
    assert_eq!(rn(Expr::Assign(b(xe()), b(xe()))), Expr::Assign(b(ye()), b(ye())));
    assert_eq!(rn(Expr::Async(lst(vec![xs()]))), Expr::Async(lst(vec![ys()])));
    assert_eq!(rn(Expr::Await(b(xe()))), Expr::Await(b(ye())));
    assert_eq!(
        rn(Expr::Binary(b(xe()), "+".to_string(), b(xe()))),
        Expr::Binary(b(ye()), "+".to_string(), b(ye())),
    );
    assert_eq!(
        rn(Expr::Block(Some("x".to_string()), lst(vec![xs()]))),
        Expr::Block(Some("y".to_string()), lst(vec![ys()])),
    );
    assert_eq!(
        rn(Expr::Break(Some("x".to_string()), Some(b(xe())))),
        Expr::Break(Some("y".to_string()), Some(b(ye()))),
    );
    assert_eq!(
        rn(Expr::Call(b(xe()), lst(vec![xe()]))),
        Expr::Call(b(ye()), lst(vec![ye()])),
    );
    assert_eq!(
        rn(Expr::Cast(b(xe()), Box::new(xt()))),
        Expr::Cast(b(ye()), Box::new(yt())),
    );
    assert_eq!(
        rn(Expr::Closure(lst(vec![xpat()]), Some(Box::new(xt())), b(xe()))),
        Expr::Closure(lst(vec![ypat()]), Some(Box::new(yt())), b(ye())),
    );
    assert_eq!(rn(Expr::ConstBlock(lst(vec![xs()]))), Expr::ConstBlock(lst(vec![ys()])));
    assert_eq!(rn(Expr::Continue(Some("x".to_string()))), Expr::Continue(Some("y".to_string())));
    assert_eq!(
        rn(Expr::Field(b(xe()), Member::Named("x".to_string()))),
        Expr::Field(b(ye()), Member::Named("y".to_string())),
    );
    assert_eq!(
        rn(Expr::ForLoop(Some("x".to_string()), Box::new(xpat()), b(xe()), lst(vec![xs()]))),
        Expr::ForLoop(Some("y".to_string()), Box::new(ypat()), b(ye()), lst(vec![ys()])),
    );
    assert_eq!(rn(Expr::Group(b(xe()))), Expr::Group(b(ye())));
    assert_eq!(
        rn(Expr::If(b(xe()), lst(vec![xs()]), Some(b(xe())))),
        Expr::If(b(ye()), lst(vec![ys()]), Some(b(ye()))),
    );
    assert_eq!(rn(Expr::Index(b(xe()), b(xe()))), Expr::Index(b(ye()), b(ye())));
    assert_eq!(
        rn(Expr::Let(Box::new(xpat()), b(xe()))),
        Expr::Let(Box::new(ypat()), b(ye())),
    );
    assert_eq!(rn(Expr::Lit("1".to_string())), Expr::Lit("1".to_string()));
    assert_eq!(
        rn(Expr::Loop(Some("x".to_string()), lst(vec![xs()]))),
        Expr::Loop(Some("y".to_string()), lst(vec![ys()])),
    );
    assert_eq!(
        rn(Expr::Macro(MacroInvocation { path: p("x"), args: lst(vec![xe()]) })),
        Expr::Macro(MacroInvocation { path: p("y"), args: lst(vec![ye()]) }),
    );
    assert_eq!(
        rn(Expr::Match(
            b(xe()),
            lst(vec![Arm { pat: xpat(), guard: Some(b(xe())), body: b(xe()) }]),
        )),
        Expr::Match(
            b(ye()),
            lst(vec![Arm { pat: ypat(), guard: Some(b(ye())), body: b(ye()) }]),
        ),
    );
    assert_eq!(
        rn(Expr::MethodCall(b(xe()), "x".to_string(), lst(vec![xe()]))),
        Expr::MethodCall(b(ye()), "y".to_string(), lst(vec![ye()])),
    );
    assert_eq!(rn(Expr::Paren(b(xe()))), Expr::Paren(b(ye())));
    assert_eq!(
        rn(Expr::Path(Some(Box::new(xt())), p("x"))),
        Expr::Path(Some(Box::new(yt())), p("y")),
    );
    assert_eq!(
        rn(Expr::Range(Some(b(xe())), Some(b(xe())))),
        Expr::Range(Some(b(ye())), Some(b(ye()))),
    );
    assert_eq!(rn(Expr::RawAddr(b(xe()))), Expr::RawAddr(b(ye())));
    assert_eq!(rn(Expr::Reference(b(xe()))), Expr::Reference(b(ye())));
    assert_eq!(rn(Expr::Repeat(b(xe()), b(xe()))), Expr::Repeat(b(ye()), b(ye())));
    assert_eq!(rn(Expr::Return(Some(b(xe())))), Expr::Return(Some(b(ye()))));
    assert_eq!(
        rn(Expr::Struct(
            Some(Box::new(xt())),
            p("x"),
            lst(vec![FieldValue { member: Member::Named("a".to_string()), expr: xe() }]),
            Some(b(xe())),
        )),
        Expr::Struct(
            Some(Box::new(yt())),
            p("y"),
            lst(vec![FieldValue { member: Member::Named("a".to_string()), expr: ye() }]),
            Some(b(ye())),
        ),
    );
    assert_eq!(rn(Expr::Try(b(xe()))), Expr::Try(b(ye())));
    assert_eq!(rn(Expr::TryBlock(lst(vec![xs()]))), Expr::TryBlock(lst(vec![ys()])));
    assert_eq!(rn(Expr::Tuple(lst(vec![xe()]))), Expr::Tuple(lst(vec![ye()])));
    assert_eq!(
        rn(Expr::Unary("-".to_string(), b(xe()))),
        Expr::Unary("-".to_string(), b(ye())),
    );
    assert_eq!(rn(Expr::Unsafe(lst(vec![xs()]))), Expr::Unsafe(lst(vec![ys()])));
    assert_eq!(
        rn(Expr::While(Some("x".to_string()), b(xe()), lst(vec![xs()]))),
        Expr::While(Some("y".to_string()), b(ye()), lst(vec![ys()])),
    );
    assert_eq!(rn(Expr::Yield(Some(b(xe())))), Expr::Yield(Some(b(ye()))));
}

#[test]
fn type_kinds_visit_every_owned_child() {
    let bt = |t: Type| Box::new(t);
    assert_eq!(
        rnt(Type::Array(bt(xt()), Box::new(xe()))),
        Type::Array(bt(yt()), Box::new(ye())),
    );
    assert_eq!(
        rnt(Type::BareFn(
            None,
            Some(Some("x".to_string())),
            lst(vec![BareFnArg { name: Some("x".to_string()), ty: xt() }]),
            Some(bt(xt())),
        )),
        Type::BareFn(
            None,
            Some(Some("y".to_string())),
            lst(vec![BareFnArg { name: Some("y".to_string()), ty: yt() }]),
            Some(bt(yt())),
        ),
    );
    assert_eq!(rnt(Type::Group(bt(xt()))), Type::Group(bt(yt())));
    assert_eq!(
        rnt(Type::ImplTrait(lst(vec![TypeParamBound::Trait(None, p("x"))]))),
        Type::ImplTrait(lst(vec![TypeParamBound::Trait(None, p("y"))])),
    );
    assert_eq!(
        rnt(Type::Macro(MacroInvocation { path: p("x"), args: lst(vec![xe()]) })),
        Type::Macro(MacroInvocation { path: p("y"), args: lst(vec![ye()]) }),
    );
    assert_eq!(rnt(Type::Paren(bt(xt()))), Type::Paren(bt(yt())));
    assert_eq!(
        rnt(Type::Path(Some(bt(xt())), p("x"))),
        Type::Path(Some(bt(yt())), p("y")),
    );
    assert_eq!(rnt(Type::Ptr(bt(xt()))), Type::Ptr(bt(yt())));
    assert_eq!(
        rnt(Type::Reference(Some("x".to_string()), bt(xt()))),
        Type::Reference(Some("y".to_string()), bt(yt())),
    );
    assert_eq!(rnt(Type::Slice(bt(xt()))), Type::Slice(bt(yt())));
    assert_eq!(
        rnt(Type::TraitObject(lst(vec![TypeParamBound::Lifetime("x".to_string())]))),
        Type::TraitObject(lst(vec![TypeParamBound::Lifetime("y".to_string())])),
    );
    assert_eq!(rnt(Type::Tuple(lst(vec![xt()]))), Type::Tuple(lst(vec![yt()])));
    assert_eq!(rnt(Type::Infer), Type::Infer);
    assert_eq!(rnt(Type::Never), Type::Never);
}

#[test]
fn pattern_kinds_visit_every_owned_child() {
    let wrap = |pat: Pat| Expr::Let(Box::new(pat), Box::new(Expr::Lit("0".to_string())));
    let check = |before: Pat, after: Pat| {
        assert_eq!(rn(wrap(before)), wrap(after));
    };
    check(Pat::ConstBlock(lst(vec![xs()])), Pat::ConstBlock(lst(vec![ys()])));
    check(xpat(), ypat());
    check(Pat::Lit("1".to_string()), Pat::Lit("1".to_string()));
    check(
        Pat::Macro(MacroInvocation { path: p("x"), args: lst(vec![xe()]) }),
        Pat::Macro(MacroInvocation { path: p("y"), args: lst(vec![ye()]) }),
    );
    check(Pat::Or(lst(vec![xpat()])), Pat::Or(lst(vec![ypat()])));
    check(Pat::Paren(Box::new(xpat())), Pat::Paren(Box::new(ypat())));
    check(Pat::Path(Some(Box::new(xt())), p("x")), Pat::Path(Some(Box::new(yt())), p("y")));
    check(
        Pat::Range(Some(Box::new(xe())), Some(Box::new(xe()))),
        Pat::Range(Some(Box::new(ye())), Some(Box::new(ye()))),
    );
    check(Pat::Reference(Box::new(xpat())), Pat::Reference(Box::new(ypat())));
    check(Pat::Rest, Pat::Rest);
    check(Pat::Slice(lst(vec![xpat()])), Pat::Slice(lst(vec![ypat()])));
    check(
        Pat::Struct(
            Some(Box::new(xt())),
            p("x"),
            lst(vec![FieldPat { member: Member::Named("x".to_string()), pat: Box::new(xpat()) }]),
        ),
        Pat::Struct(
            Some(Box::new(yt())),
            p("y"),
            lst(vec![FieldPat { member: Member::Named("y".to_string()), pat: Box::new(ypat()) }]),
        ),
    );
    check(Pat::Tuple(lst(vec![xpat()])), Pat::Tuple(lst(vec![ypat()])));
    check(
        Pat::TupleStruct(Some(Box::new(xt())), p("x"), lst(vec![xpat()])),
        Pat::TupleStruct(Some(Box::new(yt())), p("y"), lst(vec![ypat()])),
    );
    check(
        Pat::Typed(Box::new(xpat()), Box::new(xt())),
        Pat::Typed(Box::new(ypat()), Box::new(yt())),
    );
    check(Pat::Wild, Pat::Wild);
}

#[test]
fn statement_kinds_visit_every_owned_child() {
    let wrap = |s: Stmt| Expr::Block(None, lst(vec![s]));
    assert_eq!(
        rn(wrap(Stmt::Local(
            Box::new(xpat()),
            Some(LocalInit { expr: Box::new(xe()), diverge: Some(Box::new(xe())) }),
        ))),
        wrap(Stmt::Local(
            Box::new(ypat()),
            Some(LocalInit { expr: Box::new(ye()), diverge: Some(Box::new(ye())) }),
        )),
    );
    assert_eq!(rn(wrap(xs())), wrap(ys()));
    assert_eq!(
        rn(wrap(Stmt::Macro(MacroInvocation { path: p("x"), args: lst(vec![xe()]) }))),
        wrap(Stmt::Macro(MacroInvocation { path: p("y"), args: lst(vec![ye()]) })),
    );
}

#[test]
fn nested_item_statement_is_fail_stop() {
    let mut e = Expr::Block(None, lst(vec![Stmt::Item("mod inner;".to_string())]));
    let r = rename::from_expr(&mut e, &"x".to_string(), &"y".to_string());
    assert_eq!(r, Err(Error::Unsupported));
}

#[test]
fn path_segment_arguments_are_walked() {
    let inner = Path::new("x");
    let seg = PathSegment {
        ident: "Outer".to_string(),
        arguments: PathArguments::Angle(AngleBracketedGenericArguments {
            args: lst(vec![GenericArg::Type(Type::Path(None, inner))]),
        }),
    };
    let mut t = Type::Path(None, Path { segments: lst(vec![seg]) });
    rename::from_type(&mut t, &"x".to_string(), &"y".to_string()).unwrap();
    let expected_seg = PathSegment {
        ident: "Outer".to_string(),
        arguments: PathArguments::Angle(AngleBracketedGenericArguments {
            args: lst(vec![GenericArg::Type(Type::Path(None, Path::new("y")))]),
        }),
    };
    assert_eq!(t, Type::Path(None, Path { segments: lst(vec![expected_seg]) }));
}

#[test]
fn parenthesized_segment_arguments_are_walked() {
    let seg = PathSegment {
        ident: "Handler".to_string(),
        arguments: PathArguments::Paren(ParenthesizedGenericArguments {
            inputs: lst(vec![xt()]),
            output: Some(Box::new(xt())),
        }),
    };
    let mut t = Type::Path(None, Path { segments: lst(vec![seg]) });
    rename::from_type(&mut t, &"x".to_string(), &"y".to_string()).unwrap();
    let expected = PathSegment {
        ident: "Handler".to_string(),
        arguments: PathArguments::Paren(ParenthesizedGenericArguments {
            inputs: lst(vec![yt()]),
            output: Some(Box::new(yt())),
        }),
    };
    assert_eq!(t, Type::Path(None, Path { segments: lst(vec![expected]) }));
}

#[test]
fn generic_argument_kinds_are_walked() {
    let args = lst(vec![
        GenericArg::Type(xt()),
        GenericArg::Lifetime("a".to_string()),
    ]);
    let seg = PathSegment {
        ident: "Holder".to_string(),
        arguments: PathArguments::Angle(AngleBracketedGenericArguments { args }),
    };
    let mut t = Type::Path(None, Path { segments: lst(vec![seg]) });
    rename::from_type(&mut t, &"x".to_string(), &"y".to_string()).unwrap();
    let expected_args = lst(vec![
        GenericArg::Type(yt()),
        GenericArg::Lifetime("a".to_string()),
    ]);
    let expected = PathSegment {
        ident: "Holder".to_string(),
        arguments: PathArguments::Angle(AngleBracketedGenericArguments { args: expected_args }),
    };
    assert_eq!(t, Type::Path(None, Path { segments: lst(vec![expected]) }));
}

#[test]
fn declaration_kinds_visit_every_owned_child() {
    let struct_before = Item::Struct(StructItem {
        item: ItemStruct {
            ident: "x".to_string(),
            generics: x_generics(),
            fields: Fields::Named(lst(vec![Field { ident: Some("x".to_string()), ty: xt() }])),
        },
        impl_items: lst(vec![ImplementationItem {
            item: ItemImpl {
                generics: empty_generics(),
                trait_: Some(p("x")),
                self_ty: Box::new(xt()),
                items: lst(vec![ImplMember::Const(
                    "x".to_string(),
                    empty_generics(),
                    xt(),
                    xe(),
                )]),
            },
            functions: lst(vec![FnItem::new(FnType::Implementation(FnDef {
                sig: Signature {
                    ident: "x".to_string(),
                    generics: empty_generics(),
                    inputs: List::Nil,
                    variadic: None,
                    output: Some(Box::new(xt())),
                },
                body: lst(vec![xs()]),
            }))]),
        }]),
    });
    let struct_after = Item::Struct(StructItem {
        item: ItemStruct {
            ident: "y".to_string(),
            generics: y_generics(),
            fields: Fields::Named(lst(vec![Field { ident: Some("y".to_string()), ty: yt() }])),
        },
        impl_items: lst(vec![ImplementationItem {
            item: ItemImpl {
                generics: empty_generics(),
                trait_: Some(p("y")),
                self_ty: Box::new(yt()),
                items: lst(vec![ImplMember::Const(
                    "y".to_string(),
                    empty_generics(),
                    yt(),
                    ye(),
                )]),
            },
            functions: lst(vec![FnItem::new(FnType::Implementation(FnDef {
                sig: Signature {
                    ident: "y".to_string(),
                    generics: empty_generics(),
                    inputs: List::Nil,
                    variadic: None,
                    output: Some(Box::new(yt())),
                },
                body: lst(vec![ys()]),
            }))]),
        }]),
    });
    assert_eq!(rni(struct_before), struct_after);

    let enum_before = Item::Enum(EnumItem {
        item: ItemEnum {
            ident: "x".to_string(),
            generics: empty_generics(),
            variants: lst(vec![Variant {
                ident: "x".to_string(),
                fields: Fields::Unnamed(lst(vec![Field { ident: None, ty: xt() }])),
                discriminant: Some(xe()),
            }]),
        },
        impl_items: List::Nil,
    });
    let enum_after = Item::Enum(EnumItem {
        item: ItemEnum {
            ident: "y".to_string(),
            generics: empty_generics(),
            variants: lst(vec![Variant {
                ident: "y".to_string(),
                fields: Fields::Unnamed(lst(vec![Field { ident: None, ty: yt() }])),
                discriminant: Some(ye()),
            }]),
        },
        impl_items: List::Nil,
    });
    assert_eq!(rni(enum_before), enum_after);

    let other_before = Item::Other(OtherItem {
        item: OtherNode::Trait(
            "x".to_string(),
            empty_generics(),
            lst(vec![TypeParamBound::Trait(None, p("x"))]),
            false,
            lst(vec![TraitMember::Fn(
                Signature {
                    ident: "x".to_string(),
                    generics: empty_generics(),
                    inputs: List::Nil,
                    variadic: None,
                    output: None,
                },
                Some(lst(vec![xs()])),
            )]),
        ),
    });
    let other_after = Item::Other(OtherItem {
        item: OtherNode::Trait(
            "y".to_string(),
            empty_generics(),
            lst(vec![TypeParamBound::Trait(None, p("y"))]),
            false,
            lst(vec![TraitMember::Fn(
                Signature {
                    ident: "y".to_string(),
                    generics: empty_generics(),
                    inputs: List::Nil,
                    variadic: None,
                    output: None,
                },
                Some(lst(vec![ys()])),
            )]),
        ),
    });
    assert_eq!(rni(other_before), other_after);
}

#[test]
fn restricted_trait_is_fail_stop() {
    let mut it = Item::Other(OtherItem {
        item: OtherNode::Trait(
            "Sealed".to_string(),
            empty_generics(),
            List::Nil,
            true,
            List::Nil,
        ),
    });
    let r = rename::from_item(&mut it, &"x".to_string(), &"y".to_string());
    assert_eq!(r, Err(Error::Unsupported));
}

#[test]
fn precise_capture_bound_is_walked() {
    let before = Type::ImplTrait(lst(vec![TypeParamBound::PreciseCapture(lst(vec![
        CapturedParam::Lifetime("x".to_string()),
        CapturedParam::Ident("x".to_string()),
    ]))]));
    let after = Type::ImplTrait(lst(vec![TypeParamBound::PreciseCapture(lst(vec![
        CapturedParam::Lifetime("y".to_string()),
        CapturedParam::Ident("y".to_string()),
    ]))]));
    assert_eq!(rnt(before), after);
}
