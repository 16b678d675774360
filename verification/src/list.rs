//! A purely inductive list. The syntax tree, comment attachments and byte
//! strings of the library are built from it, so that specification functions
//! can construct and take apart the same values the executable code does.

use vstd::prelude::*;

verus! {

/// An inductive singly linked list.
#[derive(Debug, PartialEq, Eq)]
pub enum List<T> {
    Nil,
    Cons(T, Box<List<T>>),
}

/// Byte strings (identifiers, comment texts, object keys) as inductive lists.
pub type Text = List<u8>;

impl<T> List<T> {
    /// Length of the list.
    pub open spec fn len(self) -> nat
        decreases self,
    {
        match self {
            List::Nil => 0,
            List::Cons(_, rest) => 1 + rest.len(),
        }
    }

    /// The list as a mathematical sequence.
    pub open spec fn view_seq(self) -> Seq<T>
        decreases self,
    {
        match self {
            List::Nil => Seq::empty(),
            List::Cons(x, rest) => seq![x].add(rest.view_seq()),
        }
    }

    /// `self` followed by `other`.
    pub open spec fn append(self, other: List<T>) -> List<T>
        decreases self,
    {
        match self {
            List::Nil => other,
            List::Cons(x, rest) => List::Cons(x, Box::new(rest.append(other))),
        }
    }
}

/// Appending is associative in its effect on length.
pub proof fn lemma_append_len<T>(a: List<T>, b: List<T>)
    ensures
        a.append(b).len() == a.len() + b.len(),
    decreases a,
{
    match a {
        List::Nil => {}
        List::Cons(_, rest) => {
            lemma_append_len(*rest, b);
        }
    }
}

/// Executable append; consumes both lists.
pub fn append<T>(a: List<T>, b: List<T>) -> (r: List<T>)
    ensures
        r == a.append(b),
    decreases a,
{
    match a {
        List::Nil => b,
        List::Cons(x, rest) => List::Cons(x, Box::new(append(*rest, b))),
    }
}

/// Builds the list holding the bytes of `v`, in order.
pub open spec fn text_of_seq(s: Seq<u8>) -> Text
    decreases s.len(),
{
    if s.len() == 0 {
        List::Nil
    } else {
        List::Cons(s[0], Box::new(text_of_seq(s.skip(1))))
    }
}

/// Executable construction of a `Text` from a byte vector.
pub fn text_of_vec(v: &Vec<u8>) -> (t: Text)
    ensures
        t == text_of_seq(v@),
{
    let t = text_of_slice_from(v, 0);
    assert(v@.skip(0) =~= v@);
    t
}

fn text_of_slice_from(v: &Vec<u8>, i: usize) -> (t: Text)
    requires
        i <= v.len(),
    ensures
        t == text_of_seq(v@.skip(i as int)),
    decreases v.len() - i,
{
    if i == v.len() {
        let t = List::Nil;
        assert(v@.skip(i as int) =~= Seq::<u8>::empty());
        t
    } else {
        let rest = text_of_slice_from(v, i + 1);
        let t = List::Cons(v[i], Box::new(rest));
        assert(v@.skip(i as int)[0] == v@[i as int]);
        assert(v@.skip(i as int).skip(1) =~= v@.skip(i + 1));
        t
    }
}

/// Structural equality of byte strings, decided executably.
pub fn text_eq(a: &Text, b: &Text) -> (r: bool)
    ensures
        r == (*a == *b),
    decreases *a,
{
    match (a, b) {
        (List::Nil, List::Nil) => true,
        (List::Cons(x, ar), List::Cons(y, br)) => *x == *y && text_eq(ar, br),
        _ => false,
    }
}

/// Whether `t` occurs in a list of byte strings.
pub open spec fn text_in(t: Text, l: List<Text>) -> bool
    decreases l,
{
    match l {
        List::Nil => false,
        List::Cons(x, rest) => x == t || text_in(t, *rest),
    }
}

/// Decides membership of a byte string in a list.
pub fn text_in_exec(t: &Text, l: &List<Text>) -> (r: bool)
    ensures
        r == text_in(*t, *l),
    decreases *l,
{
    match l {
        List::Nil => false,
        List::Cons(x, rest) => text_eq(x, t) || text_in_exec(t, rest),
    }
}

/// A deep copy of a byte string, equal to the original.
pub fn text_clone(t: &Text) -> (r: Text)
    ensures
        r == *t,
    decreases *t,
{
    match t {
        List::Nil => List::Nil,
        List::Cons(x, rest) => List::Cons(*x, Box::new(text_clone(rest))),
    }
}

/// Flattens a byte string back into a vector.
pub fn text_to_vec(t: &Text) -> (v: Vec<u8>)
    ensures
        v@ == (*t).view_seq(),
    decreases *t,
{
    match t {
        List::Nil => Vec::new(),
        List::Cons(x, rest) => {
            let mut v: Vec<u8> = Vec::new();
            v.push(*x);
            let mut tail = text_to_vec(rest);
            v.append(&mut tail);
            assert(v@ =~= seq![*x].add((*rest).view_seq()));
            v
        }
    }
}

} // verus!
