use vstd::prelude::*;
use crate::iter::{Iter, IterMut};

verus! {

/// An owned chain of values: `Nil` ends it, each `Cons` owns its successor.
///
/// Chains compare and order value by value from the front, a shorter chain
/// before any chain it is a prefix of.
#[derive(Debug, PartialEq, Eq, PartialOrd, Ord, Hash)]
pub enum List<T> {
    Nil,
    Cons(T, Next<T>),
}

/// The owned link from a node to its successor.
///
/// Releasing a link walks the chain it holds one node at a time, so dropping
/// a long chain uses constant stack space.
#[derive(Debug, PartialEq, Eq, PartialOrd, Ord, Hash)]
pub struct Next<T> {
    pub node: Box<List<T>>,
}

impl<T> List<T> {
    /// The values of the chain, front to back.
    pub open spec fn values(self) -> Seq<T>
        decreases self,
    {
        match self {
            List::Nil => Seq::empty(),
            List::Cons(v, next) => seq![v] + (*next.node).values(),
        }
    }

    /// One step of consuming traversal: the rest of the chain and the
    /// detached head, or the chain unchanged and nothing once it is empty.
    pub open spec fn step(self) -> (Self, Option<T>) {
        match self {
            List::Nil => (List::Nil, None),
            List::Cons(v, next) => (*next.node, Some(v)),
        }
    }

    /// What `n` successive consuming steps return, in order.
    pub open spec fn outputs(self, n: nat) -> Seq<Option<T>>
        decreases n,
    {
        if n == 0 {
            Seq::empty()
        } else {
            seq![self.step().1] + self.step().0.outputs((n - 1) as nat)
        }
    }

    /// Follows successors to the terminating `Nil` and hands out that slot;
    /// whatever is written there is appended to the chain.
    fn tail_(list: &mut Self) -> (r: &mut Self)
        ensures
            *r is Nil,
            final(list)@ == old(list)@ + final(r)@,
    {
        let mut cur = list;
        let ghost mut prefix: Seq<T> = Seq::empty();
        loop
            invariant
                old(list)@ == prefix + (*cur)@,
                final(list)@ == prefix + final(cur)@,
            ensures
                *cur is Nil,
                old(list)@ == prefix + (*cur)@,
                final(list)@ == prefix + final(cur)@,
            decreases (*cur)@.len(),
        {
            let ghost here = *cur;
            match cur {
                List::Cons(_, next) => {
                    proof {
                        prefix = prefix.push(here->Cons_0);
                    }
                    cur = &mut *next.node;
                },
                List::Nil => break,
            }
        }
        proof {
            lemma_nil_values::<T>();
        }
        cur
    }

    /// The terminating `Nil` slot of the chain, as an append position.
    pub fn tail(&mut self) -> (r: &mut Self)
        ensures
            *r is Nil,
            final(self)@ == old(self)@ + final(r)@,
    {
        Self::tail_(self)
    }

    /// The chain that holds exactly the values of `s`, in order.
    pub open spec fn from_seq(s: Seq<T>) -> Self
        decreases s.len(),
    {
        if s.len() == 0 {
            List::Nil
        } else {
            List::Cons(s[0], Next { node: Box::new(Self::from_seq(s.drop_first())) })
        }
    }

    /// Prepends `value` to `next`, taking ownership of it.
    pub fn new(value: T, next: Self) -> (r: Self)
        ensures
            r == List::Cons(value, Next { node: Box::new(next) }),
            r@ == seq![value] + next@,
    {
        List::Cons(value, Next { node: Box::new(next) })
    }

    /// The one-node chain holding `value`.
    pub fn leaf(value: T) -> (r: Self)
        ensures
            r == List::Cons(value, Next { node: Box::new(List::Nil) }),
            r@ == seq![value],
    {
        proof {
            lemma_nil_values::<T>();
        }
        List::Cons(value, Next { node: Box::new(List::Nil) })
    }

    /// Detaches everything after the head and returns it; the head stays.
    pub fn split(&mut self) -> (r: Self)
        ensures
            match *old(self) {
                List::Nil => r is Nil && *final(self) is Nil,
                List::Cons(v, next) => r == *next.node && *final(self) == List::Cons(
                    v,
                    Next { node: Box::new(List::Nil) },
                ),
            },
            old(self)@.len() == 0 ==> r@.len() == 0 && final(self)@.len() == 0,
            old(self)@.len() > 0 ==> r@ == old(self)@.drop_first() && final(self)@ == seq![
                old(self)@[0],
            ],
    {
        proof {
            lemma_nil_values::<T>();
        }
        match self {
            List::Cons(_, next) => next.take(),
            List::Nil => List::Nil,
        }
    }

    /// The head value, if any.
    pub fn value(self) -> (r: Option<T>)
        ensures
            self@.len() == 0 ==> r is None,
            self@.len() > 0 ==> r == Some(self@[0]),
    {
        match self {
            List::Cons(v, _) => Some(v),
            List::Nil => None,
        }
    }

    /// The head and the owned link to the rest, or nothing for `Nil`.
    pub fn disassemble(self) -> (r: Option<(T, Next<T>)>)
        ensures
            match self {
                List::Nil => r is None,
                List::Cons(v, next) => r == Some((v, next)),
            },
    {
        match self {
            List::Nil => None,
            List::Cons(value, next) => Some((value, next)),
        }
    }

    /// Consuming traversal: detaches and returns the head, leaving the rest;
    /// returns nothing, and changes nothing, once the chain is empty.
    pub fn next(&mut self) -> (r: Option<T>)
        ensures
            (*final(self), r) == old(self).step(),
            old(self)@.len() == 0 ==> r is None && final(self)@.len() == 0,
            old(self)@.len() > 0 ==> r == Some(old(self)@[0]) && final(self)@
                == old(self)@.drop_first(),
    {
        let mut next = self.split();
        std::mem::swap(self, &mut next);
        next.value()
    }

    /// Builds a chain holding `values` in order, writing each one into the
    /// current terminating slot and moving on to the new node's successor.
    pub fn from_iter(values: Vec<T>) -> (r: Self)
        ensures
            r@ == values@,
            r == Self::from_seq(values@),
    {
        let ghost source = values@;
        let mut this = List::Nil;
        let mut tail = &mut this;
        for value in it: values.into_iter()
            invariant
                it.seq() == source,
                *tail is Nil,
                after_borrow(this)@ == it.seq().take(it.index()) + final(tail)@,
        {
            *tail = List::leaf(value);
            match tail {
                List::Cons(_, next) => tail = &mut *next.node,
                List::Nil => {},
            }
            assert(it.seq().take(it.index() + 1) =~= it.seq().take(it.index()).push(value));
        }
        proof {
            lemma_nil_values::<T>();
            assert(source.take(source.len() as int) =~= source);
            lemma_from_seq_values(source);
            lemma_values_injective(this, Self::from_seq(source));
        }
        this
    }

    /// Appends `values` in order after the last node, leaving the existing
    /// nodes as they are.
    pub fn extend(&mut self, values: Vec<T>)
        ensures
            final(self)@ == old(self)@ + values@,
    {
        let ghost source = values@;
        let ghost start = *old(self);
        let ghost end = *final(self);
        let mut tail = self.tail();
        for value in it: values.into_iter()
            invariant
                it.seq() == source,
                *tail is Nil,
                end@ == start@ + it.seq().take(it.index()) + final(tail)@,
        {
            *tail = List::leaf(value);
            match tail {
                List::Cons(_, next) => tail = &mut *next.node,
                List::Nil => {},
            }
            assert(it.seq().take(it.index() + 1) =~= it.seq().take(it.index()).push(value));
        }
        proof {
            lemma_nil_values::<T>();
            assert(source.take(source.len() as int) =~= source);
        }
    }

    /// Read-only traversal from the front.
    pub fn iter(&self) -> (r: Iter<'_, T>)
        ensures
            *r.list == *self,
            r@ == self@,
    {
        Iter { list: self }
    }

    /// Traversal from the front with exclusive access to each value.
    pub fn iter_mut(&mut self) -> (r: IterMut<'_, T>)
        ensures
            r.list is Some,
            *r.list.unwrap() == *old(self),
            *final(r.list.unwrap()) == *final(self),
            r@ == old(self)@,
    {
        IterMut { list: Some(self) }
    }

    /// Rebuilds a chain from what `disassemble` returns: a node from a head
    /// and a link, `Nil` from nothing.
    pub fn assemble(parts: Option<(T, Next<T>)>) -> (r: Self)
        ensures
            match parts {
                None => r is Nil,
                Some((v, next)) => r == List::Cons(v, next),
            },
    {
        match parts {
            None => List::Nil,
            Some((value, next)) => List::Cons(value, next),
        }
    }

    /// Whether the chain has no node.
    pub fn is_nil(&self) -> (r: bool)
        ensures
            r == (self@.len() == 0),
            r == (*self is Nil),
    {
        match self {
            List::Nil => true,
            _ => false,
        }
    }
}

impl<T> Next<T> {
    /// Detaches the chain held by this link, leaving `Nil` in its place.
    fn take(&mut self) -> (r: List<T>)
        ensures
            r == *old(self).node,
            *final(self).node is Nil,
        opens_invariants none
        no_unwind
    {
        let mut r = List::Nil;
        std::mem::swap(&mut *self.node, &mut r);
        r
    }
}

impl<T> Drop for Next<T> {
    /// Releases the held chain node by node: each detached node is dropped
    /// with an empty successor, so no release recurses.
    fn drop(&mut self)
        opens_invariants none
        no_unwind
    {
        let mut rest = self.take();
        loop
            decreases rest@.len(),
        {
            match &mut rest {
                List::Cons(_, next) => {
                    let after = next.take();
                    rest = after;
                },
                List::Nil => break,
            }
        }
    }
}

impl<T: Clone> Clone for List<T> {
    /// Copies the chain value by value, front to back, without recursion.
    fn clone(&self) -> (r: Self)
        ensures
            r@.len() == self@.len(),
            forall|i: int| 0 <= i < self@.len() ==> cloned(#[trigger] self@[i], r@[i]),
    {
        let mut values: Vec<T> = Vec::new();
        let mut it = self.iter();
        loop
            invariant
                values@.len() <= self@.len(),
                it@ == self@.subrange(values@.len() as int, self@.len() as int),
                forall|i: int| 0 <= i < values@.len() ==> cloned(#[trigger] self@[i], values@[i]),
            ensures
                values@.len() == self@.len(),
                forall|i: int| 0 <= i < values@.len() ==> cloned(#[trigger] self@[i], values@[i]),
            decreases it@.len(),
        {
            match it.next() {
                Some(v) => {
                    assert(*v == self@[values@.len() as int]);
                    let c = v.clone();
                    values.push(c);
                    assert(it@ =~= self@.subrange(values@.len() as int, self@.len() as int));
                },
                None => {
                    break;
                },
            }
        }
        List::from_iter(values)
    }
}

impl<T> Default for List<T> {
    /// The empty chain.
    fn default() -> (r: Self)
        ensures
            r is Nil,
            r@.len() == 0,
    {
        List::Nil
    }
}

impl<T> From<Option<T>> for List<T> {
    /// A one-node chain from a value, the empty chain from nothing.
    fn from(value: Option<T>) -> (r: Self)
        ensures
            match value {
                Some(v) => r == List::Cons(v, Next { node: Box::new(List::Nil) }),
                None => r is Nil,
            },
    {
        match value {
            Some(v) => List::leaf(v),
            None => List::Nil,
        }
    }
}

impl<T> vstd::std_specs::convert::FromSpecImpl<Option<T>> for List<T> {
    open spec fn obeys_from_spec() -> bool {
        true
    }

    open spec fn from_spec(value: Option<T>) -> Self {
        match value {
            Some(v) => List::Cons(v, Next { node: Box::new(List::Nil) }),
            None => List::Nil,
        }
    }
}

impl<T> View for List<T> {
    type V = Seq<T>;

    open spec fn view(&self) -> Seq<T> {
        self.values()
    }
}

/// Two chains with the same values are the same chain.
pub proof fn lemma_values_injective<T>(a: List<T>, b: List<T>)
    requires
        a@ == b@,
    ensures
        a == b,
    decreases a,
{
    match (a, b) {
        (List::Cons(x, n), List::Cons(y, m)) => {
            assert(a@[0] == x);
            assert(b@[0] == y);
            assert((*n.node)@ =~= a@.drop_first());
            assert((*m.node)@ =~= b@.drop_first());
            lemma_values_injective(*n.node, *m.node);
        },
        (List::Nil, List::Cons(_, _)) => {},
        (List::Cons(_, _), List::Nil) => {},
        (List::Nil, List::Nil) => {},
    }
}

/// The chain built from a sequence holds exactly that sequence.
pub proof fn lemma_from_seq_values<T>(s: Seq<T>)
    ensures
        List::from_seq(s)@ == s,
    decreases s.len(),
{
    if s.len() > 0 {
        lemma_from_seq_values(s.drop_first());
        assert(List::from_seq(s)@ =~= s);
    }
}

/// Once a consuming step returns nothing, it leaves the chain as it was, and
/// every later step returns nothing too.
pub proof fn lemma_exhaustion_is_permanent<T>(l: List<T>, n: nat)
    requires
        l.step().1 is None,
    ensures
        l.step().0 == l,
        l.outputs(n) == Seq::new(n, |i: int| None::<T>),
    decreases n,
{
    if n > 0 {
        lemma_exhaustion_is_permanent(l, (n - 1) as nat);
        assert(l.outputs(n) =~= Seq::new(n, |i: int| None::<T>));
    }
}

/// Consuming the chain built from `s` returns the values of `s` in order,
/// and nothing at every step after them.
pub proof fn lemma_consume_built<T>(s: Seq<T>, n: nat)
    requires
        n >= s.len(),
    ensures
        List::from_seq(s).outputs(n) == s.map_values(|v: T| Some(v)) + Seq::new(
            (n - s.len()) as nat,
            |i: int| None::<T>,
        ),
    decreases s.len(),
{
    if s.len() == 0 {
        lemma_exhaustion_is_permanent(List::<T>::Nil, n);
        assert(s.map_values(|v: T| Some(v)) + Seq::new(n, |i: int| None::<T>) =~= Seq::new(
            n,
            |i: int| None::<T>,
        ));
    } else {
        let rest = s.drop_first();
        lemma_consume_built(rest, (n - 1) as nat);
        assert(List::from_seq(s).outputs(n) =~= s.map_values(|v: T| Some(v)) + Seq::new(
            (n - s.len()) as nat,
            |i: int| None::<T>,
        ));
    }
}

/// Extending the chain built from `p` by `s` gives the chain built from
/// `p + s`, node for node.
pub proof fn lemma_extend_built<T>(p: Seq<T>, s: Seq<T>, extended: List<T>)
    requires
        extended@ == List::from_seq(p)@ + s,
    ensures
        extended == List::from_seq(p + s),
{
    lemma_from_seq_values(p);
    lemma_from_seq_values(p + s);
    lemma_values_injective(extended, List::from_seq(p + s));
}

proof fn lemma_nil_values<T>()
    ensures
        List::<T>::Nil@ == Seq::<T>::empty(),
{
}

} // verus!
