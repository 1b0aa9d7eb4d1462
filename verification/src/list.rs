//! A structurally recursive list used for every child collection inside the
//! syntax tree, so that traversals and their specifications can recurse over
//! the same structure.

use vstd::prelude::*;

verus! {

/// A singly linked list of tree nodes.  Elements are boxed so that a node
/// kind may hold a list of its own kind.
#[derive(Debug, PartialEq, Eq)]
pub enum List<T> {
    Nil,
    Cons(Box<T>, Box<List<T>>),
}

/// The concatenation of two lists, the first in front.
pub open spec fn spec_append<T>(a: List<T>, b: List<T>) -> List<T>
    decreases a,
{
    match a {
        List::Nil => b,
        List::Cons(head, tail) => List::Cons(head, Box::new(spec_append(*tail, b))),
    }
}

/// Concatenation of lists concatenates their sequences.
pub proof fn lemma_append_seq<T>(a: List<T>, b: List<T>)
    ensures
        spec_append(a, b).seq() == a.seq() + b.seq(),
    decreases a,
{
    match a {
        List::Nil => {
            assert(spec_append(a, b).seq() =~= a.seq() + b.seq());
        },
        List::Cons(head, tail) => {
            lemma_append_seq(*tail, b);
            assert(spec_append(a, b).seq() =~= a.seq() + b.seq());
        },
    }
}

impl<T> List<T> {
    /// The sequence of elements held by the list, front first.
    pub open spec fn seq(self) -> Seq<T>
        decreases self,
    {
        match self {
            List::Nil => Seq::empty(),
            List::Cons(head, tail) => seq![*head] + tail.seq(),
        }
    }

    /// Whether the list holds no element.
    pub fn is_empty(&self) -> (r: bool)
        ensures
            r == (self.seq().len() == 0),
    {
        match self {
            List::Nil => {
                assert(self.seq() =~= Seq::<T>::empty());
                true
            },
            List::Cons(_, _) => false,
        }
    }

    /// Append an element at the back.
    pub fn push_back(self, value: T) -> (r: List<T>)
        ensures
            r.seq() == self.seq().push(value),
        decreases self,
    {
        let ghost s0 = self;
        match self {
            List::Nil => {
                let r = List::Cons(Box::new(value), Box::new(List::Nil));
                proof {
                    assert(r.seq() =~= s0.seq().push(value));
                }
                r
            },
            List::Cons(head, tail) => {
                let new_tail = tail.push_back(value);
                let r = List::Cons(head, Box::new(new_tail));
                proof {
                    assert(r.seq() =~= s0.seq().push(value));
                }
                r
            },
        }
    }

    /// Concatenate two lists, this one in front.
    pub fn append(self, other: List<T>) -> (r: List<T>)
        ensures
            r == spec_append(self, other),
        decreases self,
    {
        match self {
            List::Nil => other,
            List::Cons(head, tail) => List::Cons(head, Box::new(tail.append(other))),
        }
    }

    /// Turn a vector into a list holding the same elements in the same order.
    pub fn from_vec(v: Vec<T>) -> (r: List<T>)
        ensures
            r.seq() == v@,
        decreases v@.len(),
    {
        let ghost v0 = v;
        let mut v = v;
        if v.len() == 0 {
            proof {
                assert(List::Nil::<T>.seq() =~= v0@);
            }
            List::Nil
        } else {
            let x = v.remove(0);
            let tail = List::from_vec(v);
            let r = List::Cons(Box::new(x), Box::new(tail));
            proof {
                assert(r.seq() =~= v0@);
            }
            r
        }
    }

    /// Turn the list into a vector holding the same elements in the same order.
    pub fn into_vec(self) -> (r: Vec<T>)
        ensures
            r@ == self.seq(),
        decreases self,
    {
        let ghost s0 = self;
        match self {
            List::Nil => {
                let r: Vec<T> = Vec::new();
                proof {
                    assert(r@ =~= s0.seq());
                }
                r
            },
            List::Cons(head, tail) => {
                let rest = tail.into_vec();
                let mut r: Vec<T> = Vec::new();
                r.push(*head);
                let mut rest = rest;
                r.append(&mut rest);
                proof {
                    assert(r@ =~= s0.seq());
                }
                r
            },
        }
    }
}

} // verus!
