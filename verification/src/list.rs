//! The list in which the results of a search come.

use vstd::prelude::*;

verus! {

/// List of the request results.
#[derive(Debug, Clone, PartialEq)]
pub struct ResultList<T>(pub Vec<T>);

impl<T> ResultList<T> {
    /// The items of the list, in order.
    pub open spec fn items(self) -> Seq<T> {
        self.0@
    }

    /// Creates a new list from `Vec`.
    pub fn new(v: Vec<T>) -> (r: Self)
        ensures
            r.0 == v,
    {
        ResultList(v)
    }

    /// Returns true if the list is empty.
    pub fn is_empty(&self) -> (r: bool)
        ensures
            r == (self.items().len() == 0),
    {
        self.0.len() == 0
    }

    /// The number of items.
    pub fn len(&self) -> (r: usize)
        ensures
            r == self.items().len(),
    {
        self.0.len()
    }

    /// The item at `index`, if the list is that long.
    pub fn nth(&self, index: usize) -> (r: Option<&T>)
        ensures
            index < self.items().len() ==> r == Some(&self.items()[index as int]),
            index >= self.items().len() ==> r is None,
    {
        if index < self.0.len() {
            Some(&self.0[index])
        } else {
            None
        }
    }

    /// Returns a reference to the data of the list.
    pub fn as_ref(&self) -> (r: &[T])
        ensures
            r@ == self.items(),
    {
        self.0.as_slice()
    }

    /// Begins to go through the list by reference.
    pub fn iter(&self) -> (r: ResultListIter<'_, T>)
        ensures
            r.item == self,
            r.index == 0,
    {
        ResultListIter { item: self, index: 0 }
    }

    /// Begins to go through the list, taking the items out of it.
    pub fn into_iter(self) -> (r: ResultListIntoIter<T>)
        ensures
            r.remaining() == self.items(),
    {
        let mut items = self.0;
        let ghost all = items@;
        let mut rest: Vec<T> = Vec::new();
        while items.len() > 0
            invariant
                items@.len() <= all.len(),
                items@ == all.take(items@.len() as int),
                rest@.len() == all.len() - items@.len(),
                forall|k: int| 0 <= k < rest@.len() ==> rest@[k] == all[all.len() - 1 - k],
            decreases items@.len(),
        {
            match items.pop() {
                Some(x) => rest.push(x),
                None => {},
            }
        }
        assert(rest@.reverse() =~= all);
        ResultListIntoIter { rest }
    }

    /// Performs the conversion from the list into `Vec`.
    pub fn to_vec(self) -> (r: Vec<T>)
        ensures
            r == self.0,
    {
        self.0
    }
}

impl<T> Default for ResultList<T> {
    fn default() -> (r: Self)
        ensures
            r.items().len() == 0,
    {
        ResultList(Vec::new())
    }
}

/// A walk through a list by reference: the list, and the place of the item
/// that comes next.
pub struct ResultListIter<'a, T> {
    pub item: &'a ResultList<T>,
    pub index: usize,
}

impl<'a, T> ResultListIter<'a, T> {
    /// The item that comes next, if the walk has not reached the end.
    pub fn next(&mut self) -> (r: Option<&'a T>)
        ensures
            final(self).item == old(self).item,
            old(self).index < old(self).item.items().len() ==> {
                &&& r == Some(&old(self).item.items()[old(self).index as int])
                &&& final(self).index == old(self).index + 1
            },
            old(self).index >= old(self).item.items().len() ==> {
                &&& r is None
                &&& final(self).index == old(self).index
            },
    {
        if self.index < self.item.0.len() {
            let x = &self.item.0[self.index];
            self.index += 1;
            Some(x)
        } else {
            None
        }
    }
}

/// A walk through a list that takes the items out of it.
pub struct ResultListIntoIter<T> {
    rest: Vec<T>,
}

impl<T> ResultListIntoIter<T> {
    /// The items that are still to come, in their order.
    pub closed spec fn remaining(self) -> Seq<T> {
        self.rest@.reverse()
    }

    /// The item that comes next, if one is left.
    pub fn next(&mut self) -> (r: Option<T>)
        ensures
            old(self).remaining().len() > 0 ==> {
                &&& r == Some(old(self).remaining()[0])
                &&& final(self).remaining() == old(self).remaining().skip(1)
            },
            old(self).remaining().len() == 0 ==> {
                &&& r is None
                &&& final(self).remaining() == old(self).remaining()
            },
    {
        let r = self.rest.pop();
        proof {
            if old(self).rest@.len() > 0 {
                assert(self.rest@.reverse() =~= old(self).rest@.reverse().skip(1));
            }
        }
        r
    }
}

} // verus!
