//! Ready-made constructors for common statements and expressions, used by
//! callers that synthesize code around the transformed trees.

use crate::ast::{Expr as AstExpr, FieldValue, MacroInvocation, Member, Pat, Stmt, Type};
use crate::error::Error;
use crate::list::List;
use crate::utils::path::{path_names, Path};
use vstd::prelude::*;

verus! {

/// A value that can stand for an expression: a bare expression, an
/// expression statement, or a path.
#[derive(Debug, PartialEq, Eq)]
pub enum Expr {
    Expr(AstExpr),
    Stmt(Stmt),
    Path(Path),
}

/// One link of a method-call chain.
#[derive(Debug, PartialEq, Eq)]
pub enum ExprMethodChainCall {
    /// The first link: a receiver, a method name, and arguments.
    Start(Expr, String, List<AstExpr>),
    /// A later link: a method name and arguments.
    Chained(String, List<AstExpr>),
}

/// The expression a convenience value stands for, when it stands for one.
pub open spec fn spec_to_expr(e: Expr) -> Option<AstExpr> {
    match e {
        Expr::Expr(value) => Some(value),
        Expr::Stmt(value) => match value {
            Stmt::Expr(inner, _) => Some(*inner),
            Stmt::Macro(mac) => Some(AstExpr::Macro(mac)),
            _ => None,
        },
        Expr::Path(p) => Some(AstExpr::Path(None, p)),
    }
}

impl Expr {
    /// The expression this value stands for; a declaration or binding
    /// statement stands for none.
    pub fn to_expr(self) -> (r: Result<AstExpr, Error>)
        ensures
            match r {
                Result::Ok(e) => spec_to_expr(self) == Some(e),
                Result::Err(err) => spec_to_expr(self) is None && err == Error::NotAnExpression,
            },
    {
        match self {
            Expr::Expr(value) => Result::Ok(value),
            Expr::Stmt(value) => match value {
                Stmt::Expr(inner, _) => Result::Ok(*inner),
                Stmt::Macro(mac) => Result::Ok(AstExpr::Macro(mac)),
                _ => Result::Err(Error::NotAnExpression),
            },
            Expr::Path(p) => Result::Ok(AstExpr::Path(None, p)),
        }
    }

    /// The statement this value holds, when it holds one.
    pub fn to_stmt(self) -> (r: Result<Stmt, Error>)
        ensures
            match r {
                Result::Ok(s) => self == Expr::Stmt(s),
                Result::Err(err) => !(self is Stmt) && err == Error::NotAStatement,
            },
    {
        match self {
            Expr::Stmt(value) => Result::Ok(value),
            _ => Result::Err(Error::NotAStatement),
        }
    }
}

/// The last segment's name of a path, when the path is non-empty.
pub open spec fn spec_last_name(p: Path) -> Option<String> {
    if p.segments.seq().len() > 0 {
        Some(p.segments.seq().last().ident)
    } else {
        None
    }
}

/// The expressions the convenience values stand for, in order.
pub open spec fn spec_to_exprs(l: List<Expr>) -> Option<List<AstExpr>>
    decreases l,
{
    match l {
        List::Nil => Some(List::Nil),
        List::Cons(head, tail) => match spec_to_expr(*head) {
            Option::None => None,
            Option::Some(e) => match spec_to_exprs(*tail) {
                Option::None => None,
                Option::Some(rest) => Some(List::Cons(Box::new(e), Box::new(rest))),
            },
        },
    }
}

/// The nested method-call expression a chain unrolls to, folded from an
/// accumulated receiver.
pub open spec fn spec_chain_from(acc: AstExpr, calls: List<ExprMethodChainCall>) -> Option<
    AstExpr,
>
    decreases calls,
{
    match calls {
        List::Nil => Some(acc),
        List::Cons(head, tail) => match *head {
            ExprMethodChainCall::Chained(method, args) => spec_chain_from(
                AstExpr::MethodCall(Box::new(acc), method, args),
                *tail,
            ),
            ExprMethodChainCall::Start(_, _, _) => None,
        },
    }
}

/// The statement builders.
pub struct Statement;

impl Statement {
    /// `receiver.member`, as an expression statement without a semicolon.
    pub fn access_field(receiver: Path, member: Path) -> (r: Result<Stmt, Error>)
        ensures
            match r {
                Result::Ok(s) => match spec_last_name(member) {
                    Option::Some(name) => s == Stmt::Expr(
                        Box::new(
                            AstExpr::Field(
                                Box::new(AstExpr::Path(None, receiver)),
                                Member::Named(name),
                            ),
                        ),
                        false,
                    ),
                    Option::None => false,
                },
                Result::Err(e) => spec_last_name(member) is None && e == Error::EmptyPath,
            },
    {
        let name = match member.last() {
            Option::Some(seg) => seg.ident.clone(),
            Option::None => {
                return Result::Err(Error::EmptyPath);
            },
        };
        Result::Ok(
            Stmt::Expr(
                Box::new(
                    AstExpr::Field(Box::new(AstExpr::Path(None, receiver)), Member::Named(name)),
                ),
                false,
            ),
        )
    }

    /// `(&receiver).member`, as an expression statement without a semicolon.
    pub fn access_field_as_ref(receiver: Path, member: Path) -> (r: Result<Stmt, Error>)
        ensures
            match r {
                Result::Ok(s) => match spec_last_name(member) {
                    Option::Some(name) => s == Stmt::Expr(
                        Box::new(
                            AstExpr::Field(
                                Box::new(
                                    AstExpr::Reference(Box::new(AstExpr::Path(None, receiver))),
                                ),
                                Member::Named(name),
                            ),
                        ),
                        false,
                    ),
                    Option::None => false,
                },
                Result::Err(e) => spec_last_name(member) is None && e == Error::EmptyPath,
            },
    {
        let name = match member.last() {
            Option::Some(seg) => seg.ident.clone(),
            Option::None => {
                return Result::Err(Error::EmptyPath);
            },
        };
        Result::Ok(
            Stmt::Expr(
                Box::new(
                    AstExpr::Field(
                        Box::new(AstExpr::Reference(Box::new(AstExpr::Path(None, receiver)))),
                        Member::Named(name),
                    ),
                ),
                false,
            ),
        )
    }

    /// `receiver.member = right;`.
    pub fn assign_field(receiver: Path, member: Path, right: Expr) -> (r: Result<Stmt, Error>)
        ensures
            match r {
                Result::Ok(s) => match (spec_last_name(member), spec_to_expr(right)) {
                    (Option::Some(name), Option::Some(value)) => s == Stmt::Expr(
                        Box::new(
                            AstExpr::Assign(
                                Box::new(
                                    AstExpr::Field(
                                        Box::new(AstExpr::Path(None, receiver)),
                                        Member::Named(name),
                                    ),
                                ),
                                Box::new(value),
                            ),
                        ),
                        true,
                    ),
                    _ => false,
                },
                Result::Err(e) => (spec_last_name(member) is None && e == Error::EmptyPath) || (
                spec_to_expr(right) is None && e == Error::NotAnExpression),
            },
    {
        let name = match member.last() {
            Option::Some(seg) => seg.ident.clone(),
            Option::None => {
                return Result::Err(Error::EmptyPath);
            },
        };
        let value = right.to_expr()?;
        Result::Ok(
            Stmt::Expr(
                Box::new(
                    AstExpr::Assign(
                        Box::new(
                            AstExpr::Field(
                                Box::new(AstExpr::Path(None, receiver)),
                                Member::Named(name),
                            ),
                        ),
                        Box::new(value),
                    ),
                ),
                true,
            ),
        )
    }

    /// The expression as a trailing statement without a semicolon.
    pub fn implicit_return(expr: Expr) -> (r: Result<Stmt, Error>)
        ensures
            match r {
                Result::Ok(s) => match spec_to_expr(expr) {
                    Option::Some(e) => s == Stmt::Expr(Box::new(e), false),
                    Option::None => false,
                },
                Result::Err(e) => spec_to_expr(expr) is None && e == Error::NotAnExpression,
            },
    {
        let e = expr.to_expr()?;
        Result::Ok(Stmt::Expr(Box::new(e), false))
    }

    /// `if let Some(name) = condition { then } else alternative`.
    pub fn let_some_condition(condition: Expr, value: Path, then: List<Stmt>, or: Option<Expr>)
        -> (r: Result<Stmt, Error>)
        ensures
            match r {
                Result::Ok(s) => match (spec_to_expr(condition), spec_last_name(value)) {
                    (Option::Some(cond), Option::Some(bound)) => match s {
                        Stmt::Expr(top, semi) => !semi && (match *top {
                            AstExpr::If(c, t, alt) => t == then && (match *c {
                                AstExpr::Let(pat, e2) => *e2 == cond && (match *pat {
                                    Pat::TupleStruct(q, p, elems) => q is None && path_names(p)
                                        =~= seq!["Some"@] && elems.seq() =~= seq![
                                        Pat::Ident(bound),
                                    ],
                                    _ => false,
                                }),
                                _ => false,
                            }) && (match (or, alt) {
                                (Option::Some(o), Option::Some(a)) => spec_to_expr(o) == Some(
                                    *a,
                                ),
                                (Option::None, Option::None) => true,
                                _ => false,
                            }),
                            _ => false,
                        }),
                        _ => false,
                    },
                    _ => false,
                },
                Result::Err(_) => spec_to_expr(condition) is None || spec_last_name(value)
                    is None || (match or {
                    Option::Some(alt) => spec_to_expr(alt) is None,
                    Option::None => false,
                }),
            },
    {
        let cond = condition.to_expr()?;
        let name = match value.last() {
            Option::Some(seg) => seg.ident.clone(),
            Option::None => {
                return Result::Err(Error::EmptyPath);
            },
        };
        let alternative = match or {
            Option::Some(alt) => Some(Box::new(alt.to_expr()?)),
            Option::None => None,
        };
        let some_path = Path::new("Some");
        let bound_pat = Pat::Ident(name);
        let ghost bp = bound_pat;
        let boxed = Box::new(bound_pat);
        let ghost bx = boxed;
        let nil: List<Pat> = List::Nil;
        let tail = Box::new(nil);
        let elems = List::Cons(boxed, tail);
        proof {
            assert(*bx == bp);
            assert(elems is Cons);
            assert(elems.seq() == seq![*elems->Cons_0] + elems->Cons_1.seq());
            assert(elems->Cons_1.seq() == Seq::<Pat>::empty());
            assert(elems.seq() =~= seq![bp]);
        }
        let pat = Pat::TupleStruct(None, some_path, elems);
        Result::Ok(
            Stmt::Expr(
                Box::new(
                    AstExpr::If(
                        Box::new(AstExpr::Let(Box::new(pat), Box::new(cond))),
                        then,
                        alternative,
                    ),
                ),
                false,
            ),
        )
    }

    /// `if let None = path { then }`.
    pub fn let_none_condition(path: Expr, then: List<Stmt>) -> (r: Result<Stmt, Error>)
        ensures
            match r {
                Result::Ok(s) => match spec_to_expr(path) {
                    Option::Some(e) => match s {
                        Stmt::Expr(top, semi) => !semi && (match *top {
                            AstExpr::If(c, t, alt) => t == then && alt is None && (match *c {
                                AstExpr::Let(pat, e2) => *e2 == e && (match *pat {
                                    Pat::Ident(n) => n@ =~= "None"@,
                                    _ => false,
                                }),
                                _ => false,
                            }),
                            _ => false,
                        }),
                        _ => false,
                    },
                    Option::None => false,
                },
                Result::Err(e) => spec_to_expr(path) is None && e == Error::NotAnExpression,
            },
    {
        let e = path.to_expr()?;
        let none_name: String = "None".to_owned();
        Result::Ok(
            Stmt::Expr(
                Box::new(
                    AstExpr::If(
                        Box::new(AstExpr::Let(Box::new(Pat::Ident(none_name)), Box::new(e))),
                        then,
                        None,
                    ),
                ),
                false,
            ),
        )
    }

    /// `path(arguments...);`.
    pub fn call(path: Path, arguments: List<Expr>) -> (r: Result<Stmt, Error>)
        ensures
            match r {
                Result::Ok(s) => match spec_to_exprs(arguments) {
                    Option::Some(args) => s == Stmt::Expr(
                        Box::new(AstExpr::Call(Box::new(AstExpr::Path(None, path)), args)),
                        true,
                    ),
                    Option::None => false,
                },
                Result::Err(e) => spec_to_exprs(arguments) is None && e == Error::NotAnExpression,
            },
    {
        let args = Self::to_exprs(arguments)?;
        Result::Ok(
            Stmt::Expr(Box::new(AstExpr::Call(Box::new(AstExpr::Path(None, path)), args)), true),
        )
    }

    /// `receiver.method(arguments...);`.
    pub fn method_call(receiver: Expr, method: Path, arguments: List<Expr>) -> (r: Result<
        Stmt,
        Error,
    >)
        ensures
            match r {
                Result::Ok(s) => match (spec_to_expr(receiver), spec_last_name(method),
                spec_to_exprs(arguments)) {
                    (Option::Some(rec), Option::Some(name), Option::Some(args)) => s
                        == Stmt::Expr(
                        Box::new(AstExpr::MethodCall(Box::new(rec), name, args)),
                        true,
                    ),
                    _ => false,
                },
                Result::Err(_) => spec_to_expr(receiver) is None || spec_last_name(method)
                    is None || spec_to_exprs(arguments) is None,
            },
    {
        let rec = receiver.to_expr()?;
        let name = match method.last() {
            Option::Some(seg) => seg.ident.clone(),
            Option::None => {
                return Result::Err(Error::EmptyPath);
            },
        };
        let args = Self::to_exprs(arguments)?;
        Result::Ok(Stmt::Expr(Box::new(AstExpr::MethodCall(Box::new(rec), name, args)), true))
    }

    /// A chain of method calls, `start.m1(..).m2(..)...;`.  The chain must
    /// hold at least two links, the first a start and the rest chained.
    pub fn method_chain_call(calls: List<ExprMethodChainCall>) -> (r: Result<Stmt, Error>)
        ensures
            match r {
                Result::Ok(s) => match calls {
                    List::Cons(first, rest) => match *first {
                        ExprMethodChainCall::Start(receiver, method, args) => match spec_to_expr(
                            receiver,
                        ) {
                            Option::Some(rec) => match spec_chain_from(
                                AstExpr::MethodCall(Box::new(rec), method, args),
                                *rest,
                            ) {
                                Option::Some(e) => rest.seq().len() >= 1 && s == Stmt::Expr(
                                    Box::new(e),
                                    true,
                                ),
                                Option::None => false,
                            },
                            Option::None => false,
                        },
                        _ => false,
                    },
                    List::Nil => false,
                },
                Result::Err(_) => true,
            },
    {
        match calls {
            List::Nil => Result::Err(Error::InvalidChain),
            List::Cons(first, rest) => match *first {
                ExprMethodChainCall::Start(receiver, method, args) => {
                    let single = rest.is_empty();
                    if single {
                        return Result::Err(Error::InvalidChain);
                    }
                    let rec = receiver.to_expr()?;
                    let acc = AstExpr::MethodCall(Box::new(rec), method, args);
                    let chained = Self::chain_from(acc, *rest)?;
                    Result::Ok(Stmt::Expr(Box::new(chained), true))
                },
                ExprMethodChainCall::Chained(_, _) => Result::Err(Error::InvalidChain),
            },
        }
    }

    /// Fold the remaining links around the accumulated receiver.
    fn chain_from(acc: AstExpr, calls: List<ExprMethodChainCall>) -> (r: Result<AstExpr, Error>)
        ensures
            match r {
                Result::Ok(e) => spec_chain_from(acc, calls) == Some(e),
                Result::Err(err) => spec_chain_from(acc, calls) is None && err
                    == Error::InvalidChain,
            },
        decreases calls,
    {
        match calls {
            List::Nil => Result::Ok(acc),
            List::Cons(head, tail) => match *head {
                ExprMethodChainCall::Chained(method, args) => Self::chain_from(
                    AstExpr::MethodCall(Box::new(acc), method, args),
                    *tail,
                ),
                ExprMethodChainCall::Start(_, _, _) => Result::Err(Error::InvalidChain),
            },
        }
    }

    /// `path { field: value, ... };`, fields in the given order.
    pub fn struct_literal(path: Path, fields: List<FieldValue>) -> (r: Stmt)
        ensures
            r == Stmt::Expr(
                Box::new(AstExpr::Struct(None, path, fields, None)),
                true,
            ),
    {
        Stmt::Expr(Box::new(AstExpr::Struct(None, path, fields, None)), true)
    }

    /// `left = right;`.
    pub fn assign(left: Expr, right: Expr) -> (r: Result<Stmt, Error>)
        ensures
            match r {
                Result::Ok(s) => match (spec_to_expr(left), spec_to_expr(right)) {
                    (Option::Some(l), Option::Some(rv)) => s == Stmt::Expr(
                        Box::new(AstExpr::Assign(Box::new(l), Box::new(rv))),
                        true,
                    ),
                    _ => false,
                },
                Result::Err(e) => (spec_to_expr(left) is None || spec_to_expr(right) is None)
                    && e == Error::NotAnExpression,
            },
    {
        let l = left.to_expr()?;
        let rv = right.to_expr()?;
        Result::Ok(Stmt::Expr(Box::new(AstExpr::Assign(Box::new(l), Box::new(rv))), true))
    }

    /// `let name = right;`.
    pub fn let_assign(name: Path, right: Expr) -> (r: Result<Stmt, Error>)
        ensures
            match r {
                Result::Ok(s) => match (spec_last_name(name), spec_to_expr(right)) {
                    (Option::Some(n), Option::Some(rv)) => s == Stmt::Local(
                        Box::new(Pat::Ident(n)),
                        Some(crate::ast::LocalInit { expr: Box::new(rv), diverge: None }),
                    ),
                    _ => false,
                },
                Result::Err(e) => (spec_last_name(name) is None && e == Error::EmptyPath) || (
                spec_to_expr(right) is None && e == Error::NotAnExpression),
            },
    {
        let n = match name.last() {
            Option::Some(seg) => seg.ident.clone(),
            Option::None => {
                return Result::Err(Error::EmptyPath);
            },
        };
        let rv = right.to_expr()?;
        Result::Ok(
            Stmt::Local(
                Box::new(Pat::Ident(n)),
                Some(crate::ast::LocalInit { expr: Box::new(rv), diverge: None }),
            ),
        )
    }

    /// `{ name!(arguments...); };`.
    pub fn macro_invocation(name: Path, arguments: List<Expr>) -> (r: Result<Stmt, Error>)
        ensures
            match r {
                Result::Ok(s) => match spec_to_exprs(arguments) {
                    Option::Some(args) => s == Stmt::Expr(
                        Box::new(
                            AstExpr::Block(
                                None,
                                List::Cons(
                                    Box::new(
                                        Stmt::Macro(MacroInvocation { path: name, args }),
                                    ),
                                    Box::new(List::Nil),
                                ),
                            ),
                        ),
                        true,
                    ),
                    Option::None => false,
                },
                Result::Err(e) => spec_to_exprs(arguments) is None && e == Error::NotAnExpression,
            },
    {
        let args = Self::to_exprs(arguments)?;
        Result::Ok(
            Stmt::Expr(
                Box::new(
                    AstExpr::Block(
                        None,
                        List::Cons(
                            Box::new(Stmt::Macro(MacroInvocation { path: name, args })),
                            Box::new(List::Nil),
                        ),
                    ),
                ),
                true,
            ),
        )
    }

    /// `{ panic!(message, arguments...); };`.
    pub fn panic(message: String, arguments: List<Expr>) -> (r: Result<Stmt, Error>)
        ensures
            r is Err ==> spec_to_exprs(arguments) is None,
    {
        let args = Self::to_exprs(arguments)?;
        let head = AstExpr::Lit(message);
        let all = List::Cons(Box::new(head), Box::new(args));
        Result::Ok(
            Stmt::Expr(
                Box::new(
                    AstExpr::Block(
                        None,
                        List::Cons(
                            Box::new(
                                Stmt::Macro(
                                    MacroInvocation { path: Path::new("panic"), args: all },
                                ),
                            ),
                            Box::new(List::Nil),
                        ),
                    ),
                ),
                true,
            ),
        )
    }

    /// `{ statements... };`.
    pub fn block(statements: List<Stmt>) -> (r: Stmt)
        ensures
            r == Stmt::Expr(Box::new(AstExpr::Block(None, statements)), true),
    {
        Stmt::Expr(Box::new(AstExpr::Block(None, statements)), true)
    }

    /// `path;`.
    pub fn path(path: Path) -> (r: Stmt)
        ensures
            r == Stmt::Expr(Box::new(AstExpr::Path(None, path)), true),
    {
        Stmt::Expr(Box::new(AstExpr::Path(None, path)), true)
    }

    /// The same expression statement without its trailing semicolon.
    pub fn without_trailling_semi_colon(statement: Stmt) -> (r: Result<Stmt, Error>)
        ensures
            match r {
                Result::Ok(s) => match statement {
                    Stmt::Expr(e, _) => s == Stmt::Expr(e, false),
                    _ => false,
                },
                Result::Err(err) => !(statement is Expr) && err == Error::NotAnExpression,
            },
    {
        match statement {
            Stmt::Expr(e, _) => Result::Ok(Stmt::Expr(e, false)),
            _ => Result::Err(Error::NotAnExpression),
        }
    }

    /// `|arguments...| -> output body;`.
    pub fn closure(arguments: List<Pat>, return_type: Option<Type>, body: Expr) -> (r: Result<
        Stmt,
        Error,
    >)
        ensures
            match r {
                Result::Ok(s) => match spec_to_expr(body) {
                    Option::Some(b) => s == Stmt::Expr(
                        Box::new(
                            AstExpr::Closure(
                                arguments,
                                match return_type {
                                    Option::Some(t) => Some(Box::new(t)),
                                    Option::None => None,
                                },
                                Box::new(b),
                            ),
                        ),
                        true,
                    ),
                    Option::None => false,
                },
                Result::Err(e) => spec_to_expr(body) is None && e == Error::NotAnExpression,
            },
    {
        let b = body.to_expr()?;
        let output = match return_type {
            Option::Some(t) => Some(Box::new(t)),
            Option::None => None,
        };
        Result::Ok(Stmt::Expr(Box::new(AstExpr::Closure(arguments, output, Box::new(b))), true))
    }

    /// Turn each convenience value into its expression, in order.
    fn to_exprs(l: List<Expr>) -> (r: Result<List<AstExpr>, Error>)
        ensures
            match r {
                Result::Ok(l2) => spec_to_exprs(l) == Some(l2),
                Result::Err(e) => spec_to_exprs(l) is None && e == Error::NotAnExpression,
            },
        decreases l,
    {
        match l {
            List::Nil => Result::Ok(List::Nil),
            List::Cons(head, tail) => {
                let e = (*head).to_expr()?;
                let rest = Self::to_exprs(*tail)?;
                Result::Ok(List::Cons(Box::new(e), Box::new(rest)))
            },
        }
    }
}

} // verus!
