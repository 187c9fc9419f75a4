use vstd::prelude::*;
use crate::list::{List, Next};

verus! {

/// Read-only traversal of a chain, front to back.
pub struct Iter<'a, T> {
    pub list: &'a List<T>,
}

impl<'a, T> View for Iter<'a, T> {
    type V = Seq<T>;

    /// The values not yet yielded.
    open spec fn view(&self) -> Seq<T> {
        (*self.list)@
    }
}

impl<'a, T> Iter<'a, T> {
    /// Yields the next value, or nothing from the end of the chain on.
    pub fn next(&mut self) -> (r: Option<&'a T>)
        ensures
            old(self)@.len() == 0 ==> r is None && final(self)@ == old(self)@,
            old(self)@.len() > 0 ==> r is Some && *r.unwrap() == old(self)@[0] && final(self)@
                == old(self)@.drop_first(),
    {
        match self.list {
            List::Nil => None,
            List::Cons(value, next) => {
                self.list = &next.node;
                Some(value)
            },
        }
    }
}

/// Traversal of a chain that hands out an exclusive reference to each value
/// in turn. Each step moves the held reference from a node to its successor,
/// so no node is reached twice and no two yielded references overlap.
pub struct IterMut<'a, T> {
    pub list: Option<&'a mut List<T>>,
}

impl<'a, T> View for IterMut<'a, T> {
    type V = Seq<T>;

    /// The values not yet yielded.
    open spec fn view(&self) -> Seq<T> {
        match self.list {
            Some(l) => (*l)@,
            None => Seq::empty(),
        }
    }
}

impl<'a, T> IterMut<'a, T> {
    /// Yields an exclusive reference to the next value, or nothing from the
    /// end of the chain on. The node it came from ends up holding what is
    /// finally written through that reference, followed by what the rest of
    /// the traversal leaves in its successor.
    pub fn next(&mut self) -> (r: Option<&'a mut T>)
        ensures
            old(self)@.len() == 0 ==> r is None && final(self).list is None,
            old(self).list is Some && *old(self).list.unwrap() is Nil
                ==> *final(old(self).list.unwrap()) is Nil,
            old(self)@.len() > 0 ==> {
                &&& r is Some
                &&& *r.unwrap() == old(self)@[0]
                &&& final(self).list is Some
                &&& final(self)@ == old(self)@.drop_first()
                &&& *final(old(self).list.unwrap()) == List::Cons(
                    *final(r.unwrap()),
                    Next { node: Box::new(*final(final(self).list.unwrap())) },
                )
            },
    {
        match self.list.take() {
            Some(List::Cons(value, next)) => {
                self.list = Some(&mut *next.node);
                Some(value)
            },
            _ => None,
        }
    }
}

/// Adds `delta` to every value of the chain through one mutable traversal;
/// reading the chain afterwards shows the sum at every position.
pub fn add_to_each(list: &mut List<u64>, delta: u64)
    requires
        forall|i: int| 0 <= i < old(list)@.len() ==> old(list)@[i] + delta <= u64::MAX,
    ensures
        final(list)@ == old(list)@.map_values(|v: u64| (v + delta) as u64),
{
    let ghost start = *old(list);
    let ghost end = *final(list);
    let ghost mut k: int = 0;
    let mut it = list.iter_mut();
    loop
        invariant
            0 <= k <= start@.len(),
            it@ == start@.subrange(k, start@.len() as int),
            forall|i: int| 0 <= i < start@.len() ==> start@[i] + delta <= u64::MAX,
            it.list is Some ==> end@ == start@.take(k).map_values(|v: u64| (v + delta) as u64)
                + (*final(it.list.unwrap()))@,
            it.list is None ==> k == start@.len() && end@ == start@.map_values(
                |v: u64| (v + delta) as u64,
            ),
        ensures
            end@ == start@.map_values(|v: u64| (v + delta) as u64),
        decreases it@.len(),
    {
        match it.next() {
            Some(v) => {
                *v = *v + delta;
                proof {
                    k = k + 1;
                }
                assert(start@.take(k).map_values(|v: u64| (v + delta) as u64) =~= start@.take(
                    k - 1,
                ).map_values(|v: u64| (v + delta) as u64).push(*v));
            },
            None => {
                assert(start@.take(k) =~= start@);
                break;
            },
        }
    }
}

} // verus!
