//! The path model: a scoped, possibly generic name, with prefix matching and
//! trimming, flattening, and argument decomposition.

use crate::ast::{AngleBracketedGenericArguments, GenericArg, ParenthesizedGenericArguments, PathArguments, Type};
use crate::error::Error;
use crate::list::List;
use vstd::prelude::*;

verus! {

/// One segment of a path: an identifier plus at most one of an
/// angle-bracketed generic-argument list or a parenthesized parameter list.
#[derive(Debug, PartialEq, Eq)]
pub struct PathSegment {
    pub ident: String,
    pub arguments: PathArguments,
}

impl PathSegment {
    /// A segment carrying no arguments.
    pub fn plain(ident: &str) -> (r: PathSegment)
        ensures
            r.ident@ == ident@,
            r.arguments == PathArguments::Plain,
    {
        PathSegment { ident: ident.to_owned(), arguments: PathArguments::Plain }
    }
}

/// A scoped name: an ordered sequence of segments, non-empty in normal use.
#[derive(Debug, PartialEq, Eq)]
pub struct Path {
    pub segments: List<PathSegment>,
}

/// The segment names of a path, as character sequences.
pub open spec fn path_names(p: Path) -> Seq<Seq<char>> {
    p.segments.seq().map_values(|s: PathSegment| s.ident@)
}

/// The segment names of a path, as a list of strings.
pub open spec fn seg_names(l: List<PathSegment>) -> List<String>
    decreases l,
{
    match l {
        List::Nil => List::Nil,
        List::Cons(head, tail) => List::Cons(Box::new(head.ident), Box::new(seg_names(*tail))),
    }
}

/// The result of removing a strictly matching leading run of names from a
/// segment list: `Some` holds the non-empty remainder, `None` reports that
/// the names do not match, that the match would empty the list, or that the
/// prefix ran beyond the list.
pub open spec fn spec_drop_prefix(segs: List<PathSegment>, pre: List<String>) -> Option<
    List<PathSegment>,
>
    decreases pre,
{
    match pre {
        List::Nil => match segs {
            List::Nil => None,
            List::Cons(_, _) => Some(segs),
        },
        List::Cons(p, pt) => match segs {
            List::Nil => None,
            List::Cons(s, st) => if s.ident@ == p@ {
                spec_drop_prefix(*st, *pt)
            } else {
                None
            },
        },
    }
}

/// What `trim_start` does at the top level: the trimmed path and whether the
/// prefix was removed.  Nested generic arguments are not touched here; the
/// walker visits them independently.
pub open spec fn spec_trim_top(p: Path, prefix: List<String>) -> (Path, bool) {
    match prefix {
        List::Nil => (p, false),
        List::Cons(_, _) => match spec_drop_prefix(p.segments, prefix) {
            Some(rest) => (Path { segments: rest }, true),
            None => (p, false),
        },
    }
}

/// Trimming a one-segment path reports failure and leaves it unchanged,
/// whatever names the prefix holds: a prefix match that would remove the
/// only segment must never empty the path.
pub proof fn lemma_trim_single_segment(p: Path, prefix: List<String>)
    requires
        p.segments.seq().len() == 1,
    ensures
        spec_trim_top(p, prefix) == (p, false),
{
    match prefix {
        List::Nil => {},
        List::Cons(_, _) => {
            Path::lemma_drop_prefix_single(p.segments, prefix);
        },
    }
}

/// The segment list with a type argument attached to the last segment's
/// angle-bracket list; an empty list or a parenthesized last segment has no
/// result.
pub open spec fn spec_with_angle(l: List<PathSegment>, argument: Path) -> Option<
    List<PathSegment>,
>
    decreases l,
{
    match l {
        List::Nil => None,
        List::Cons(head, tail) => match *tail {
            List::Nil => {
                let new_arg = GenericArg::Type(Type::Path(None, argument));
                let one = List::Cons(Box::new(new_arg), Box::new(List::<GenericArg>::Nil));
                match head.arguments {
                    PathArguments::Plain => Some(
                        List::Cons(
                            Box::new(
                                PathSegment {
                                    ident: head.ident,
                                    arguments: PathArguments::Angle(
                                        AngleBracketedGenericArguments { args: one },
                                    ),
                                },
                            ),
                            Box::new(List::Nil),
                        ),
                    ),
                    PathArguments::Angle(a) => Some(
                        List::Cons(
                            Box::new(
                                PathSegment {
                                    ident: head.ident,
                                    arguments: PathArguments::Angle(
                                        AngleBracketedGenericArguments {
                                            args: crate::list::spec_append(a.args, one),
                                        },
                                    ),
                                },
                            ),
                            Box::new(List::Nil),
                        ),
                    ),
                    PathArguments::Paren(_) => None,
                }
            },
            List::Cons(_, _) => match spec_with_angle(*tail, argument) {
                Option::None => None,
                Option::Some(rest) => Some(List::Cons(head, Box::new(rest))),
            },
        },
    }
}

/// The segment list with a type argument attached to the last segment's
/// parenthesized parameter list; an empty list or an angle-bracketed last
/// segment has no result.
pub open spec fn spec_with_paren(l: List<PathSegment>, argument: Path) -> Option<
    List<PathSegment>,
>
    decreases l,
{
    match l {
        List::Nil => None,
        List::Cons(head, tail) => match *tail {
            List::Nil => {
                let new_input = Type::Path(None, argument);
                let one = List::Cons(Box::new(new_input), Box::new(List::<Type>::Nil));
                match head.arguments {
                    PathArguments::Plain => Some(
                        List::Cons(
                            Box::new(
                                PathSegment {
                                    ident: head.ident,
                                    arguments: PathArguments::Paren(
                                        ParenthesizedGenericArguments {
                                            inputs: one,
                                            output: None,
                                        },
                                    ),
                                },
                            ),
                            Box::new(List::Nil),
                        ),
                    ),
                    PathArguments::Paren(p) => Some(
                        List::Cons(
                            Box::new(
                                PathSegment {
                                    ident: head.ident,
                                    arguments: PathArguments::Paren(
                                        ParenthesizedGenericArguments {
                                            inputs: crate::list::spec_append(p.inputs, one),
                                            output: p.output,
                                        },
                                    ),
                                },
                            ),
                            Box::new(List::Nil),
                        ),
                    ),
                    PathArguments::Angle(_) => None,
                }
            },
            List::Cons(_, _) => match spec_with_paren(*tail, argument) {
                Option::None => None,
                Option::Some(rest) => Some(List::Cons(head, Box::new(rest))),
            },
        },
    }
}

/// The flattened form of a segment list: only the last segment remains, its
/// nested generic-argument paths flattened in turn.
pub open spec fn spec_flatten_segs(l: List<PathSegment>) -> List<PathSegment>
    decreases l,
{
    match l {
        List::Nil => List::Nil,
        List::Cons(head, tail) => match *tail {
            List::Nil => List::Cons(Box::new(spec_flatten_seg(*head)), Box::new(List::Nil)),
            List::Cons(_, _) => spec_flatten_segs(*tail),
        },
    }
}

/// One segment with every nested generic-argument path flattened.
pub open spec fn spec_flatten_seg(s: PathSegment) -> PathSegment
    decreases s,
{
    match s.arguments {
        PathArguments::Angle(a) => PathSegment {
            ident: s.ident,
            arguments: PathArguments::Angle(
                AngleBracketedGenericArguments { args: spec_flatten_args(a.args) },
            ),
        },
        _ => s,
    }
}

/// The generic arguments with every nested path argument flattened.
pub open spec fn spec_flatten_args(l: List<GenericArg>) -> List<GenericArg>
    decreases l,
{
    match l {
        List::Nil => List::Nil,
        List::Cons(head, tail) => {
            let head2 = match *head {
                GenericArg::Type(t) => match t {
                    Type::Path(q, p) => GenericArg::Type(
                        Type::Path(q, Path { segments: spec_flatten_segs(p.segments) }),
                    ),
                    other => GenericArg::Type(other),
                },
                other => other,
            };
            List::Cons(Box::new(head2), Box::new(spec_flatten_args(*tail)))
        },
    }
}

/// The paths among a list of type arguments, in order.
pub open spec fn spec_type_arg_paths(l: List<GenericArg>) -> Seq<Path>
    decreases l,
{
    match l {
        List::Nil => Seq::empty(),
        List::Cons(head, tail) => match *head {
            GenericArg::Type(t) => match t {
                Type::Path(_, p) => seq![p] + spec_type_arg_paths(*tail),
                _ => spec_type_arg_paths(*tail),
            },
            _ => spec_type_arg_paths(*tail),
        },
    }
}

impl Path {
    /// Whether the path is well formed: it has at least one segment.
    pub open spec fn wf(self) -> bool {
        self.segments.seq().len() > 0
    }

    /// A path of one bare segment.
    pub fn new(segment: &str) -> (r: Path)
        ensures
            path_names(r) =~= seq![segment@],
            r.segments.seq().len() == 1,
            r.segments.seq()[0].arguments == PathArguments::Plain,
            r.wf(),
    {
        let seg = PathSegment::plain(segment);
        let ghost sg = seg;
        let b = Box::new(seg);
        let ghost bg = b;
        let nil: List<PathSegment> = List::Nil;
        let tail = Box::new(nil);
        let r = Path { segments: List::Cons(b, tail) };
        proof {
            assert(*bg == sg);
            assert(r.segments is Cons);
            assert(r.segments.seq() == seq![*bg] + List::Nil::<PathSegment>.seq());
            assert(List::Nil::<PathSegment>.seq() == Seq::<PathSegment>::empty());
            assert(r.segments.seq() =~= seq![sg]);
            assert(path_names(r) =~= seq![segment@]);
        }
        r
    }

    /// Append one bare segment at the back.
    pub fn join(self, segment: &str) -> (r: Path)
        ensures
            path_names(r) =~= path_names(self).push(segment@),
            r.segments.seq().len() == self.segments.seq().len() + 1,
            r.segments.seq().subrange(0, self.segments.seq().len() as int) =~= self.segments.seq(),
            r.segments.seq().last().arguments == PathArguments::Plain,
    {
        let ghost s0 = self;
        let seg = PathSegment::plain(segment);
        let ghost segg = seg;
        let r = Path { segments: self.segments.push_back(seg) };
        proof {
            assert(r.segments.seq() =~= s0.segments.seq().push(segg));
            assert(path_names(r) =~= path_names(s0).push(segment@));
        }
        r
    }

    /// Attempt to remove the prefix's name sequence from the front of the
    /// path.  Only the top level is handled here: a strictly matching, shorter
    /// prefix is dropped and success reported; on a mismatch, a prefix at
    /// least as long as the path, or a single-segment path, the path is
    /// returned unchanged with failure reported.
    pub fn trim_top(self, prefix: &List<String>) -> (r: (Path, bool))
        ensures
            r == spec_trim_top(self, *prefix),
            path_names(self).len() == 1 ==> r.0 == self && !r.1,
    {
        let ghost s0 = self;
        match prefix {
            List::Nil => (self, false),
            List::Cons(_, _) => {
                let r = match Self::drop_prefix(self.segments, prefix) {
                    Result::Ok(rest) => (Path { segments: rest }, true),
                    Result::Err(segs) => (Path { segments: segs }, false),
                };
                proof {
                    if path_names(s0).len() == 1 {
                        Self::lemma_drop_prefix_single(s0.segments, *prefix);
                    }
                }
                r
            },
        }
    }

    /// The segment names of the path, cloned into a list of strings.
    pub fn clone_names(&self) -> (r: List<String>)
        ensures
            r == seg_names(self.segments),
    {
        Self::clone_names_of(&self.segments)
    }

    /// Clone the identifier of every segment, in order.
    fn clone_names_of(l: &List<PathSegment>) -> (r: List<String>)
        ensures
            r == seg_names(*l),
        decreases *l,
    {
        match l {
            List::Nil => List::Nil,
            List::Cons(head, tail) => {
                let name = head.ident.clone();
                let rest = Self::clone_names_of(tail);
                List::Cons(Box::new(name), Box::new(rest))
            },
        }
    }

    /// Remove a strictly matching leading prefix, or return the segments
    /// unchanged in the error case.
    fn drop_prefix(segs: List<PathSegment>, pre: &List<String>) -> (r: Result<
        List<PathSegment>,
        List<PathSegment>,
    >)
        ensures
            match r {
                Result::Ok(rest) => spec_drop_prefix(segs, *pre) == Some(rest),
                Result::Err(back) => back == segs && spec_drop_prefix(segs, *pre) is None,
            },
        decreases *pre,
    {
        match pre {
            List::Nil => match segs {
                List::Nil => Result::Err(segs),
                List::Cons(_, _) => Result::Ok(segs),
            },
            List::Cons(p, pt) => match segs {
                List::Nil => Result::Err(List::Nil),
                List::Cons(s, st) => {
                    if s.ident.eq(&**p) {
                        match Self::drop_prefix(*st, pt) {
                            Result::Ok(rest) => Result::Ok(rest),
                            Result::Err(back) => Result::Err(List::Cons(s, Box::new(back))),
                        }
                    } else {
                        Result::Err(List::Cons(s, Box::new(*st)))
                    }
                },
            },
        }
    }

    /// A path of one segment may never lose that segment to a trim.
    proof fn lemma_drop_prefix_single(segs: List<PathSegment>, pre: List<String>)
        requires
            segs.seq().len() == 1,
            pre is Cons,
        ensures
            spec_drop_prefix(segs, pre) is None,
        decreases pre,
    {
        match pre {
            List::Nil => {},
            List::Cons(p, pt) => {
                match segs {
                    List::Nil => {},
                    List::Cons(s, st) => {
                        assert(segs.seq() =~= seq![*s] + st.seq());
                        assert(st.seq().len() == 0);
                        if s.ident@ == p@ {
                            Self::lemma_drop_prefix_empty(*st, *pt);
                        }
                    },
                }
            },
        }
    }

    /// An empty segment list never yields a trimmed remainder.
    proof fn lemma_drop_prefix_empty(segs: List<PathSegment>, pre: List<String>)
        requires
            segs.seq().len() == 0,
        ensures
            spec_drop_prefix(segs, pre) is None,
    {
        match segs {
            List::Nil => {},
            List::Cons(s, st) => {
                assert(segs.seq() =~= seq![*s] + st.seq());
            },
        }
    }

    /// Remove the prefix's name sequence from the front of the path, and
    /// independently trim nested type-argument paths inside every segment's
    /// generic arguments, handing them to the walker.  Reports whether the
    /// top-level prefix was removed; nested trims already performed stand
    /// even when the top level reports failure.
    pub fn trim_start(self, prefix: &Path) -> (r: Result<(Path, bool), Error>)
        ensures
            match r {
                Result::Ok((p2, trimmed)) => match crate::walkers::path::walk_segment_list_spec(
                    crate::functions::trim_path::trim_context_spec(*prefix),
                    self.segments,
                ) {
                    Option::Some((cf, segs1)) => (p2, trimmed) == spec_trim_top(
                        Path { segments: segs1 },
                        seg_names(prefix.segments),
                    ),
                    Option::None => false,
                },
                Result::Err(_) => crate::walkers::path::walk_segment_list_spec(
                    crate::functions::trim_path::trim_context_spec(*prefix),
                    self.segments,
                ) is None,
            },
    {
        let mut ctx = crate::functions::trim_path::create_context(prefix);
        let segs1 = match crate::walkers::path::walk_segment_list(self.segments, &mut ctx) {
            Result::Ok(v) => v,
            Result::Err(e) => {
                return Result::Err(e);
            },
        };
        let names = prefix.clone_names();
        let (p2, trimmed) = Path { segments: segs1 }.trim_top(&names);
        Result::Ok((p2, trimmed))
    }

    /// Attach a type argument to the last segment's angle-bracket list,
    /// creating the list when absent.  A segment already carrying a
    /// parenthesized list is a caller error and fails fast.
    pub fn with(self, argument: Path) -> (r: Result<Path, Error>)
        ensures
            match r {
                Result::Ok(p2) => spec_with_angle(self.segments, argument) == Some(p2.segments),
                Result::Err(e) => spec_with_angle(self.segments, argument) is None && (e
                    == Error::EmptyPath || e == Error::MixedArguments),
            },
    {
        match Self::attach_angle(self.segments, argument) {
            Result::Ok(segments) => Result::Ok(Path { segments }),
            Result::Err(e) => Result::Err(e),
        }
    }

    /// Attach a type argument to the last segment's angle-bracket list.
    fn attach_angle(l: List<PathSegment>, argument: Path) -> (r: Result<List<PathSegment>, Error>)
        ensures
            match r {
                Result::Ok(l2) => spec_with_angle(l, argument) == Some(l2),
                Result::Err(e) => spec_with_angle(l, argument) is None && (e == Error::EmptyPath
                    || e == Error::MixedArguments),
            },
        decreases l,
    {
        match l {
            List::Nil => Result::Err(Error::EmptyPath),
            List::Cons(head, tail) => match *tail {
                List::Nil => {
                    let seg = *head;
                    let new_arg = GenericArg::Type(Type::Path(None, argument));
                    match seg.arguments {
                        PathArguments::Plain => {
                            let args = List::Cons(Box::new(new_arg), Box::new(List::Nil));
                            let seg2 = PathSegment {
                                ident: seg.ident,
                                arguments: PathArguments::Angle(
                                    AngleBracketedGenericArguments { args },
                                ),
                            };
                            Result::Ok(List::Cons(Box::new(seg2), Box::new(List::Nil)))
                        },
                        PathArguments::Angle(a) => {
                            let args = a.args.append(
                                List::Cons(Box::new(new_arg), Box::new(List::Nil)),
                            );
                            let seg2 = PathSegment {
                                ident: seg.ident,
                                arguments: PathArguments::Angle(
                                    AngleBracketedGenericArguments { args },
                                ),
                            };
                            Result::Ok(List::Cons(Box::new(seg2), Box::new(List::Nil)))
                        },
                        PathArguments::Paren(_) => Result::Err(Error::MixedArguments),
                    }
                },
                List::Cons(_, _) => match Self::attach_angle(*tail, argument) {
                    Result::Ok(rest) => Result::Ok(List::Cons(head, Box::new(rest))),
                    Result::Err(e) => Result::Err(e),
                },
            },
        }
    }

    /// Attach a type argument to the last segment's parenthesized parameter
    /// list, creating the list when absent.  A segment already carrying an
    /// angle-bracket list is a caller error and fails fast.
    pub fn with_parameter(self, argument: Path) -> (r: Result<Path, Error>)
        ensures
            match r {
                Result::Ok(p2) => spec_with_paren(self.segments, argument) == Some(p2.segments),
                Result::Err(e) => spec_with_paren(self.segments, argument) is None && (e
                    == Error::EmptyPath || e == Error::MixedArguments),
            },
    {
        match Self::attach_paren(self.segments, argument) {
            Result::Ok(segments) => Result::Ok(Path { segments }),
            Result::Err(e) => Result::Err(e),
        }
    }

    /// Attach a type argument to the last segment's parenthesized list.
    fn attach_paren(l: List<PathSegment>, argument: Path) -> (r: Result<List<PathSegment>, Error>)
        ensures
            match r {
                Result::Ok(l2) => spec_with_paren(l, argument) == Some(l2),
                Result::Err(e) => spec_with_paren(l, argument) is None && (e == Error::EmptyPath
                    || e == Error::MixedArguments),
            },
        decreases l,
    {
        match l {
            List::Nil => Result::Err(Error::EmptyPath),
            List::Cons(head, tail) => match *tail {
                List::Nil => {
                    let seg = *head;
                    let new_input = Type::Path(None, argument);
                    match seg.arguments {
                        PathArguments::Plain => {
                            let inputs = List::Cons(Box::new(new_input), Box::new(List::Nil));
                            let seg2 = PathSegment {
                                ident: seg.ident,
                                arguments: PathArguments::Paren(
                                    ParenthesizedGenericArguments { inputs, output: None },
                                ),
                            };
                            Result::Ok(List::Cons(Box::new(seg2), Box::new(List::Nil)))
                        },
                        PathArguments::Paren(p) => {
                            let inputs = p.inputs.append(
                                List::Cons(Box::new(new_input), Box::new(List::Nil)),
                            );
                            let seg2 = PathSegment {
                                ident: seg.ident,
                                arguments: PathArguments::Paren(
                                    ParenthesizedGenericArguments {
                                        inputs,
                                        output: p.output,
                                    },
                                ),
                            };
                            Result::Ok(List::Cons(Box::new(seg2), Box::new(List::Nil)))
                        },
                        PathArguments::Angle(_) => Result::Err(Error::MixedArguments),
                    }
                },
                List::Cons(_, _) => match Self::attach_paren(*tail, argument) {
                    Result::Ok(rest) => Result::Ok(List::Cons(head, Box::new(rest))),
                    Result::Err(e) => Result::Err(e),
                },
            },
        }
    }

    /// Collapse the path to a single segment: its last one, with any nested
    /// generic-argument paths flattened recursively.  An empty path has no
    /// last segment and fails.
    pub fn flatten(self) -> (r: Result<Path, Error>)
        ensures
            match r {
                Result::Ok(p2) => self.segments.seq().len() > 0 && p2 == Path {
                    segments: spec_flatten_segs(self.segments),
                },
                Result::Err(e) => self.segments.seq().len() == 0 && e == Error::EmptyPath,
            },
    {
        match &self.segments {
            List::Nil => {
                proof {
                    assert(self.segments.seq() =~= Seq::<PathSegment>::empty());
                }
                Result::Err(Error::EmptyPath)
            },
            List::Cons(_, _) => {
                proof {
                    assert(self.segments.seq() =~= seq![*self.segments->Cons_0]
                        + self.segments->Cons_1.seq());
                }
                Result::Ok(Path { segments: Self::flatten_segs(self.segments) })
            },
        }
    }

    /// Keep only the last segment, flattening its nested argument paths.
    fn flatten_segs(l: List<PathSegment>) -> (r: List<PathSegment>)
        ensures
            r == spec_flatten_segs(l),
        decreases l,
    {
        match l {
            List::Nil => List::Nil,
            List::Cons(head, tail) => match *tail {
                List::Nil => List::Cons(
                    Box::new(Self::flatten_seg(*head)),
                    Box::new(List::Nil),
                ),
                List::Cons(h2, t2) => Self::flatten_segs(List::Cons(h2, t2)),
            },
        }
    }

    /// Flatten the nested generic-argument paths of one segment.
    fn flatten_seg(s: PathSegment) -> (r: PathSegment)
        ensures
            r == spec_flatten_seg(s),
        decreases s,
    {
        match s.arguments {
            PathArguments::Angle(a) => PathSegment {
                ident: s.ident,
                arguments: PathArguments::Angle(
                    AngleBracketedGenericArguments { args: Self::flatten_args(a.args) },
                ),
            },
            other => PathSegment { ident: s.ident, arguments: other },
        }
    }

    /// Flatten every nested path argument of the list.
    fn flatten_args(l: List<GenericArg>) -> (r: List<GenericArg>)
        ensures
            r == spec_flatten_args(l),
        decreases l,
    {
        match l {
            List::Nil => List::Nil,
            List::Cons(head, tail) => {
                let head2 = match *head {
                    GenericArg::Type(t) => match t {
                        Type::Path(q, p) => GenericArg::Type(
                            Type::Path(q, Path { segments: Self::flatten_segs(p.segments) }),
                        ),
                        other => GenericArg::Type(other),
                    },
                    other => other,
                };
                List::Cons(Box::new(head2), Box::new(Self::flatten_args(*tail)))
            },
        }
    }

    /// Extract the final segment's angle-bracket type-argument list as
    /// paths.  Fails when the path is empty or the arguments are absent or
    /// parenthesized.
    pub fn decompose_arguments(self) -> (r: Result<Vec<Path>, Error>)
        ensures
            match r {
                Result::Ok(v) => self.segments.seq().len() > 0 && (match self.segments.seq().last().arguments {
                    PathArguments::Angle(a) => v@ == spec_type_arg_paths(a.args),
                    _ => false,
                }),
                Result::Err(e) => {
                    ||| (self.segments.seq().len() == 0 && e == Error::EmptyPath)
                    ||| (self.segments.seq().len() > 0 && !(self.segments.seq().last().arguments
                        is Angle) && e == Error::UnexpectedArguments)
                },
            },
    {
        let ghost s0 = self;
        match Self::last_arguments(self.segments) {
            Result::Ok(arguments) => match arguments {
                PathArguments::Angle(a) => Result::Ok(Self::collect_type_arg_paths(a.args)),
                _ => Result::Err(Error::UnexpectedArguments),
            },
            Result::Err(e) => Result::Err(e),
        }
    }

    /// The arguments of the last segment.
    fn last_arguments(l: List<PathSegment>) -> (r: Result<PathArguments, Error>)
        ensures
            match r {
                Result::Ok(a) => l.seq().len() > 0 && a == l.seq().last().arguments,
                Result::Err(e) => l.seq().len() == 0 && e == Error::EmptyPath,
            },
        decreases l,
    {
        match l {
            List::Nil => {
                proof {
                    assert(l.seq() =~= Seq::<PathSegment>::empty());
                }
                Result::Err(Error::EmptyPath)
            },
            List::Cons(head, tail) => {
                let ghost lg = l;
                proof {
                    assert(lg.seq() =~= seq![*lg->Cons_0] + lg->Cons_1.seq());
                }
                match *tail {
                    List::Nil => Result::Ok(head.arguments),
                    List::Cons(_, _) => Self::last_arguments(*tail),
                }
            },
        }
    }

    /// The paths among the type arguments, in order.
    fn collect_type_arg_paths(l: List<GenericArg>) -> (r: Vec<Path>)
        ensures
            r@ == spec_type_arg_paths(l),
        decreases l,
    {
        match l {
            List::Nil => {
                let r: Vec<Path> = Vec::new();
                proof {
                    assert(r@ =~= Seq::<Path>::empty());
                }
                r
            },
            List::Cons(head, tail) => {
                let ghost h0 = *head;
                let rest = Self::collect_type_arg_paths(*tail);
                match *head {
                    GenericArg::Type(Type::Path(_, p)) => {
                        let mut out: Vec<Path> = Vec::new();
                        let ghost pg = p;
                        out.push(p);
                        let mut rest = rest;
                        out.append(&mut rest);
                        proof {
                            assert(out@ =~= seq![pg] + spec_type_arg_paths(*l->Cons_1));
                        }
                        out
                    },
                    _ => rest,
                }
            },
        }
    }

    /// The last segment, when the path is non-empty.
    pub fn last(&self) -> (r: Option<&PathSegment>)
        ensures
            match r {
                Some(seg) => self.segments.seq().len() > 0 && *seg == self.segments.seq().last(),
                None => self.segments.seq().len() == 0,
            },
        decreases self.segments,
    {
        match &self.segments {
            List::Nil => None,
            List::Cons(head, tail) => {
                let sub = Path::last_of(tail);
                proof {
                    assert(self.segments.seq() =~= seq![**head] + tail.seq());
                }
                match sub {
                    Some(seg) => Some(seg),
                    None => Some(head),
                }
            },
        }
    }

    /// The last element of a segment list.
    fn last_of(l: &List<PathSegment>) -> (r: Option<&PathSegment>)
        ensures
            match r {
                Some(seg) => l.seq().len() > 0 && *seg == l.seq().last(),
                None => l.seq().len() == 0,
            },
        decreases *l,
    {
        match l {
            List::Nil => None,
            List::Cons(head, tail) => {
                let sub = Path::last_of(tail);
                proof {
                    assert(l.seq() =~= seq![**head] + tail.seq());
                }
                match sub {
                    Some(seg) => Some(seg),
                    None => Some(head),
                }
            },
        }
    }
}

} // verus!
