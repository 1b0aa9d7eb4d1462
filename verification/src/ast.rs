//! The syntax-tree data model: every expression, type, pattern and statement
//! node kind that the tree walker covers.
//!
//! Child collections are held in [`List`](crate::list::List) so that the
//! walker and its specification recurse over the same structure.  Identifiers
//! are plain strings; literals, operators and opaque token runs are carried
//! through as strings and never inspected.

use crate::list::List;
use crate::utils::path::Path;
use vstd::prelude::*;

verus! {

/// A struct-field or tuple-field selector.
#[derive(Debug, PartialEq, Eq)]
pub enum Member {
    /// A named field; the identifier is handed to the identifier predicate.
    Named(String),
    /// A positional field; never rewritten.
    Unnamed(u64),
}

/// A macro invocation: a path naming the macro and its arguments, which are
/// walked as expressions.  The macro body is otherwise opaque.
#[derive(Debug, PartialEq, Eq)]
pub struct MacroInvocation {
    pub path: Path,
    pub args: List<Expr>,
}

/// An angle-bracketed generic-argument list, `<...>`.
#[derive(Debug, PartialEq, Eq)]
pub struct AngleBracketedGenericArguments {
    pub args: List<GenericArg>,
}

/// A parenthesized argument list, `(...) -> ...`.
#[derive(Debug, PartialEq, Eq)]
pub struct ParenthesizedGenericArguments {
    pub inputs: List<Type>,
    pub output: Option<Box<Type>>,
}

/// The arguments carried by one path segment.  The two argument kinds are
/// mutually exclusive on one segment.
#[derive(Debug, PartialEq, Eq)]
pub enum PathArguments {
    /// No arguments.
    Plain,
    /// `Seg<...>`.
    Angle(AngleBracketedGenericArguments),
    /// `Seg(...) -> ...`.
    Paren(ParenthesizedGenericArguments),
}

/// One generic argument inside an angle-bracketed list.
#[derive(Debug, PartialEq, Eq)]
pub enum GenericArg {
    /// A lifetime argument, as its identifier.
    Lifetime(String),
    /// A type argument.
    Type(Type),
    /// A const argument.
    Const(Expr),
    /// An associated-type binding: name, optional generics, the bound type.
    AssocType(String, Option<AngleBracketedGenericArguments>, Type),
    /// An associated-const binding: name, optional generics, the bound value.
    AssocConst(String, Option<AngleBracketedGenericArguments>, Expr),
    /// An associated-type constraint: name, optional generics, its bounds.
    Constraint(String, Option<AngleBracketedGenericArguments>, List<TypeParamBound>),
}

/// A bound on a type parameter.
#[derive(Debug, PartialEq, Eq)]
pub enum TypeParamBound {
    /// A trait bound: optional higher-ranked lifetimes, then the trait path.
    Trait(Option<List<GenericParam>>, Path),
    /// A lifetime bound, as its identifier.
    Lifetime(String),
    /// A precise-capture bound, `use<...>`.
    PreciseCapture(List<CapturedParam>),
}

/// One parameter of a precise-capture bound.
#[derive(Debug, PartialEq, Eq)]
pub enum CapturedParam {
    Lifetime(String),
    Ident(String),
}

/// One generic parameter of a declaration.
#[derive(Debug, PartialEq, Eq)]
pub enum GenericParam {
    /// A lifetime parameter: its identifier and its bound lifetimes.
    Lifetime(String, List<String>),
    /// A type parameter: identifier, bounds, optional default type.
    Type(String, List<TypeParamBound>, Option<Box<Type>>),
    /// A const parameter: identifier and type; only the type is walked.
    Const(String, Box<Type>),
}

/// One predicate of a where clause.
#[derive(Debug, PartialEq, Eq)]
pub enum WherePredicate {
    /// A lifetime predicate: the lifetime and its bound lifetimes.
    Lifetime(String, List<String>),
    /// A type predicate: higher-ranked lifetimes, the bounded type, bounds.
    Type(Option<List<GenericParam>>, Type, List<TypeParamBound>),
}

/// A where clause.
#[derive(Debug, PartialEq, Eq)]
pub struct WhereClause {
    pub predicates: List<WherePredicate>,
}

/// The generics of a declaration: parameters and an optional where clause.
#[derive(Debug, PartialEq, Eq)]
pub struct Generics {
    pub params: List<GenericParam>,
    pub where_clause: Option<WhereClause>,
}

/// One argument of a function-pointer type: an optional name and a type.
#[derive(Debug, PartialEq, Eq)]
pub struct BareFnArg {
    pub name: Option<String>,
    pub ty: Type,
}

/// A type node.
#[derive(Debug, PartialEq, Eq)]
pub enum Type {
    /// `[T; n]`: element type and length expression.
    Array(Box<Type>, Box<Expr>),
    /// A function-pointer type: higher-ranked lifetimes, an optional variadic
    /// argument name (`Some(name)` when the variadic is present), the
    /// arguments, and the optional return type.
    BareFn(Option<List<GenericParam>>, Option<Option<String>>, List<BareFnArg>, Option<Box<Type>>),
    /// A group around a type.
    Group(Box<Type>),
    /// `impl Bound + ...`.
    ImplTrait(List<TypeParamBound>),
    /// A macro in type position.
    Macro(MacroInvocation),
    /// `(T)`.
    Paren(Box<Type>),
    /// A path type with an optional qualified self, `<T as Trait>::Out`.
    Path(Option<Box<Type>>, Path),
    /// A raw-pointer type.
    Ptr(Box<Type>),
    /// A reference type: optional lifetime identifier and element.
    Reference(Option<String>, Box<Type>),
    /// `[T]`.
    Slice(Box<Type>),
    /// `dyn Bound + ...`.
    TraitObject(List<TypeParamBound>),
    /// `(T, U, ...)`.
    Tuple(List<Type>),
    /// `_`.
    Infer,
    /// `!`.
    Never,
    /// An opaque token run carried through unchanged.
    Verbatim(String),
}

/// One arm of a match expression.
#[derive(Debug, PartialEq, Eq)]
pub struct Arm {
    pub pat: Pat,
    pub guard: Option<Box<Expr>>,
    pub body: Box<Expr>,
}

/// One `name: value` pair of a struct literal.
#[derive(Debug, PartialEq, Eq)]
pub struct FieldValue {
    pub member: Member,
    pub expr: Expr,
}

/// One field of a struct pattern.
#[derive(Debug, PartialEq, Eq)]
pub struct FieldPat {
    pub member: Member,
    pub pat: Box<Pat>,
}

/// An expression node.
#[derive(Debug, PartialEq, Eq)]
pub enum Expr {
    /// `[a, b, ...]`.
    Array(List<Expr>),
    /// `left = right`.
    Assign(Box<Expr>, Box<Expr>),
    /// An async block.
    Async(List<Stmt>),
    /// `base.await`.
    Await(Box<Expr>),
    /// `left op right`; the operator is opaque.
    Binary(Box<Expr>, String, Box<Expr>),
    /// A block expression with an optional label.
    Block(Option<String>, List<Stmt>),
    /// `break 'label value`.
    Break(Option<String>, Option<Box<Expr>>),
    /// `func(args...)`.
    Call(Box<Expr>, List<Expr>),
    /// `expr as ty`.
    Cast(Box<Expr>, Box<Type>),
    /// A closure: parameter patterns, optional return type, body.
    Closure(List<Pat>, Option<Box<Type>>, Box<Expr>),
    /// A const block.
    ConstBlock(List<Stmt>),
    /// `continue 'label`.
    Continue(Option<String>),
    /// `base.member`.
    Field(Box<Expr>, Member),
    /// `'label: for pat in expr { body }`.
    ForLoop(Option<String>, Box<Pat>, Box<Expr>, List<Stmt>),
    /// A group around an expression.
    Group(Box<Expr>),
    /// `if cond { then } else alternative`.
    If(Box<Expr>, List<Stmt>, Option<Box<Expr>>),
    /// `expr[index]`.
    Index(Box<Expr>, Box<Expr>),
    /// `let pat = expr` as a condition.
    Let(Box<Pat>, Box<Expr>),
    /// A literal, carried through as text.
    Lit(String),
    /// `'label: loop { body }`.
    Loop(Option<String>, List<Stmt>),
    /// A macro invocation in expression position.
    Macro(MacroInvocation),
    /// `match expr { arms }`.
    Match(Box<Expr>, List<Arm>),
    /// `receiver.method(args...)`.
    MethodCall(Box<Expr>, String, List<Expr>),
    /// `(expr)`.
    Paren(Box<Expr>),
    /// A path expression with an optional qualified self.
    Path(Option<Box<Type>>, Path),
    /// `start..end`.
    Range(Option<Box<Expr>>, Option<Box<Expr>>),
    /// `&raw const expr` / `&raw mut expr`.
    RawAddr(Box<Expr>),
    /// `&expr`.
    Reference(Box<Expr>),
    /// `[expr; len]`.
    Repeat(Box<Expr>, Box<Expr>),
    /// `return expr`.
    Return(Option<Box<Expr>>),
    /// A struct literal: qualified self, path, fields, optional rest.
    Struct(Option<Box<Type>>, Path, List<FieldValue>, Option<Box<Expr>>),
    /// `expr?`.
    Try(Box<Expr>),
    /// A try block.
    TryBlock(List<Stmt>),
    /// `(a, b, ...)`.
    Tuple(List<Expr>),
    /// `op expr`; the operator is opaque.
    Unary(String, Box<Expr>),
    /// An unsafe block.
    Unsafe(List<Stmt>),
    /// `'label: while cond { body }`.
    While(Option<String>, Box<Expr>, List<Stmt>),
    /// `yield expr`.
    Yield(Option<Box<Expr>>),
    /// An opaque token run carried through unchanged.
    Verbatim(String),
}

/// A pattern node.
#[derive(Debug, PartialEq, Eq)]
pub enum Pat {
    /// A const block in pattern position.
    ConstBlock(List<Stmt>),
    /// A binding, as its identifier.
    Ident(String),
    /// A literal pattern, carried through as text.
    Lit(String),
    /// A macro in pattern position.
    Macro(MacroInvocation),
    /// `p | q | ...`.
    Or(List<Pat>),
    /// `(pat)`.
    Paren(Box<Pat>),
    /// A path pattern with an optional qualified self.
    Path(Option<Box<Type>>, Path),
    /// `start..=end`.
    Range(Option<Box<Expr>>, Option<Box<Expr>>),
    /// `&pat`.
    Reference(Box<Pat>),
    /// `..`.
    Rest,
    /// `[a, b, ...]`.
    Slice(List<Pat>),
    /// A struct pattern: qualified self, path, field patterns.
    Struct(Option<Box<Type>>, Path, List<FieldPat>),
    /// `(a, b, ...)`.
    Tuple(List<Pat>),
    /// A tuple-struct pattern: qualified self, path, element patterns.
    TupleStruct(Option<Box<Type>>, Path, List<Pat>),
    /// `pat: ty`.
    Typed(Box<Pat>, Box<Type>),
    /// `_`.
    Wild,
}

/// The initializer of a let statement.
#[derive(Debug, PartialEq, Eq)]
pub struct LocalInit {
    pub expr: Box<Expr>,
    pub diverge: Option<Box<Expr>>,
}

/// A statement node.
#[derive(Debug, PartialEq, Eq)]
pub enum Stmt {
    /// `let pat = init;`.
    Local(Box<Pat>, Option<LocalInit>),
    /// A nested item declaration in statement position: a declared,
    /// fail-stop, unimplemented extension point of the walker.
    Item(String),
    /// An expression statement; the flag records a trailing semicolon.
    Expr(Box<Expr>, bool),
    /// A macro invocation in statement position.
    Macro(MacroInvocation),
}

/// One input of a function signature.
#[derive(Debug, PartialEq, Eq)]
pub enum FnArg {
    /// A self receiver: `Some(lifetime)` when taken by reference, and its type.
    Receiver(Option<Option<String>>, Box<Type>),
    /// An ordinary `pat: ty` input.
    Typed(Box<Pat>, Box<Type>),
}

/// A function signature: name, generics, inputs, an optional variadic
/// (with an optional pattern), and an optional return type.
#[derive(Debug, PartialEq, Eq)]
pub struct Signature {
    pub ident: String,
    pub generics: Generics,
    pub inputs: List<FnArg>,
    pub variadic: Option<Option<Box<Pat>>>,
    pub output: Option<Box<Type>>,
}

/// One field of a struct, union or enum variant.
#[derive(Debug, PartialEq, Eq)]
pub struct Field {
    pub ident: Option<String>,
    pub ty: Type,
}

/// The fields of a struct or enum variant.
#[derive(Debug, PartialEq, Eq)]
pub enum Fields {
    Named(List<Field>),
    Unnamed(List<Field>),
    Unit,
}

/// One variant of an enum.
#[derive(Debug, PartialEq, Eq)]
pub struct Variant {
    pub ident: String,
    pub fields: Fields,
    pub discriminant: Option<Expr>,
}

} // verus!
