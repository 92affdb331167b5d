use crate::proxy::Proxy;
use vstd::prelude::*;

verus! {

/// Per-type storage for the objects of one element type.
///
/// A table stores values in insertion order and issues a fresh [`Proxy`]
/// for each one.  Indices start at 0 and increase by exactly 1 per
/// insertion and are never reused, so a table's view is simply the
/// sequence of stored values, and the proxy with index `i` refers to the
/// `i`-th entry.  There is no removal: a table only ever grows.
#[derive(Clone)]
pub struct Table<T> {
    members: Vec<T>,
}

impl<T> View for Table<T> {
    type V = Seq<T>;

    closed spec fn view(&self) -> Seq<T> {
        self.members@
    }
}

impl<T> Table<T> {
    /// Create a new, empty table.
    pub fn new() -> (t: Table<T>)
        ensures
            t@ == Seq::<T>::empty(),
    {
        Table { members: Vec::new() }
    }

    /// Insert a new item, issuing a handle for it.
    ///
    /// The returned proxy carries the next free index, which is the number
    /// of values stored so far; it can be presented to this table later to
    /// retrieve the stored value.
    pub fn push(&mut self, value: T) -> (p: Proxy<T>)
        ensures
            final(self)@ == old(self)@.push(value),
            p.id() == old(self)@.len(),
    {
        let ix = self.members.len() as u64;
        self.members.push(value);
        Proxy::from_index(ix)
    }

    /// Retrieve a previously stored item.
    ///
    /// A proxy that this table did not issue (its index lies beyond the
    /// issued range) yields `None`, never a wrong value.
    pub fn get(&self, p: &Proxy<T>) -> (r: Option<&T>)
        ensures
            p.id() < self@.len() ==> r.is_some() && *r.unwrap() == self@[p.id() as int],
            p.id() >= self@.len() ==> r.is_none(),
    {
        let i = p.index();
        if i < self.members.len() as u64 {
            Some(&self.members[i as usize])
        } else {
            None
        }
    }

    /// Retrieve a previously stored item mutably.
    ///
    /// Whatever the caller writes through the returned reference replaces
    /// the stored value; nothing else in the table changes.  A proxy this
    /// table did not issue yields `None` and leaves the table untouched.
    pub fn get_mut(&mut self, p: &Proxy<T>) -> (r: Option<&mut T>)
        ensures
            p.id() < old(self)@.len() ==> r.is_some() && *r.unwrap() == old(self)@[p.id() as int]
                && final(self)@ == old(self)@.update(p.id() as int, *final(r.unwrap())),
            p.id() >= old(self)@.len() ==> r.is_none() && final(self)@ == old(self)@,
    {
        let i = p.index();
        if i < self.members.len() as u64 {
            Some(&mut self.members[i as usize])
        } else {
            None
        }
    }

    /// Iterate over shared references to all stored items, in ascending
    /// index order, which is insertion order.
    pub fn iter(&self) -> (it: TableIterator<'_, T>)
        ensures
            it.elems() == self@,
            it.position() == 0,
    {
        TableIterator { items: &self.members, pos: 0 }
    }

    /// Iterate over mutable references to all stored items, in ascending
    /// index order.  Editing the yielded items in place is the only
    /// mutation allowed while iterating.  Calling
    /// [`TableMutIterator::finish`] when done ties the edits back to
    /// this table's view.
    pub fn iter_mut(&mut self) -> (it: TableMutIterator<'_, T>)
        ensures
            it.elems() == old(self)@,
            it.position() == 0,
            final(self)@ == final(it.target())@,
    {
        TableMutIterator { items: &mut self.members, pos: 0 }
    }

    /// Iterate over proxies for all stored items, in ascending index
    /// order.
    pub fn iter_proxies(&self) -> (it: TableProxyIterator<T>)
        ensures
            it.position() == 0,
            it.limit() == self@.len(),
    {
        TableProxyIterator {
            _marker: core::marker::PhantomData,
            next_index: 0,
            end: self.members.len() as u64,
        }
    }
}

impl<T> Default for Table<T> {
    /// Tables are created empty.
    fn default() -> (t: Table<T>)
        ensures
            t@ == Seq::<T>::empty(),
    {
        Table::new()
    }
}

/// A cursor over shared references to the items stored in a [`Table`],
/// yielding them in ascending index order.
pub struct TableIterator<'a, T> {
    items: &'a Vec<T>,
    pos: usize,
}

impl<'a, T> TableIterator<'a, T> {
    /// The full sequence of items being walked.
    pub closed spec fn elems(self) -> Seq<T> {
        self.items@
    }

    /// How many items have been yielded so far.
    pub closed spec fn position(self) -> int {
        self.pos as int
    }

    /// The next stored item, or `None` once every item has been yielded.
    pub fn next(&mut self) -> (r: Option<&'a T>)
        ensures
            final(self).elems() == old(self).elems(),
            old(self).position() < old(self).elems().len() ==> (r.is_some()
                && *r.unwrap() == old(self).elems()[old(self).position()]
                && final(self).position() == old(self).position() + 1),
            old(self).position() >= old(self).elems().len() ==> (r.is_none()
                && final(self).position() == old(self).position()),
    {
        if self.pos < self.items.len() {
            let i = self.pos;
            self.pos = self.pos + 1;
            Some(&self.items[i])
        } else {
            None
        }
    }
}

/// A cursor over the proxies a [`Table`] has issued, in ascending index
/// order.  Proxies carry no data beyond their index, so the cursor yields
/// them by value.
pub struct TableProxyIterator<T> {
    _marker: core::marker::PhantomData<T>,
    next_index: u64,
    end: u64,
}

impl<T> TableProxyIterator<T> {
    /// The index the next yielded proxy will carry.
    pub closed spec fn position(self) -> int {
        self.next_index as int
    }

    /// One past the last issued index.
    pub closed spec fn limit(self) -> int {
        self.end as int
    }

    /// The next issued proxy, or `None` once every proxy has been yielded.
    pub fn next(&mut self) -> (r: Option<Proxy<T>>)
        ensures
            final(self).limit() == old(self).limit(),
            old(self).position() < old(self).limit() ==> (r.is_some()
                && r.unwrap().id() == old(self).position()
                && final(self).position() == old(self).position() + 1),
            old(self).position() >= old(self).limit() ==> (r.is_none()
                && final(self).position() == old(self).position()),
    {
        if self.next_index < self.end {
            let i = self.next_index;
            self.next_index = self.next_index + 1;
            Some(Proxy::from_index(i))
        } else {
            None
        }
    }
}

/// A cursor over mutable references to the items stored in a [`Table`],
/// yielding them in ascending index order.  Writing through a yielded
/// reference edits the stored value in place; the table cannot grow or
/// shrink while the cursor holds its borrow.
pub struct TableMutIterator<'a, T> {
    items: &'a mut Vec<T>,
    pos: usize,
}

impl<'a, T> TableMutIterator<'a, T> {
    /// The borrow of the underlying storage this cursor walks.
    pub closed spec fn target(self) -> &'a mut Vec<T> {
        self.items
    }

    /// The sequence of items being walked, as the cursor currently sees
    /// them (edits through earlier yields included).
    pub closed spec fn elems(self) -> Seq<T> {
        self.items@
    }

    /// How many items have been yielded so far.
    pub closed spec fn position(self) -> int {
        self.pos as int
    }

    /// Surrender the cursor.
    ///
    /// Consuming the cursor resolves its borrow of the storage, which
    /// finally holds exactly what the cursor last saw: this is how a
    /// caller carries edits made through [`Self::next`] back to the
    /// table's view after the loop.
    pub fn finish(self)
        ensures
            final(self.target())@ == self.elems(),
    {
    }

    /// The next stored item, mutably, or `None` once every item has been
    /// yielded.
    pub fn next(&mut self) -> (r: Option<&mut T>)
        ensures
            *final(old(self).target()) == *final(final(self).target()),
            old(self).position() < old(self).elems().len() ==> (r.is_some()
                && *r.unwrap() == old(self).elems()[old(self).position()]
                && final(self).elems() == old(self).elems().update(
                old(self).position(),
                *final(r.unwrap()),
            )
                && final(self).position() == old(self).position() + 1),
            old(self).position() >= old(self).elems().len() ==> (r.is_none()
                && final(self).elems() == old(self).elems()
                && final(self).position() == old(self).position()),
    {
        if self.pos < self.items.len() {
            let i = self.pos;
            self.pos = self.pos + 1;
            Some(&mut self.items[i])
        } else {
            None
        }
    }
}

/// Resolution is stable under further insertion: a push extends the
/// table by one value at the new index and leaves every handle issued
/// before resolving to exactly the value it resolved to before.
pub proof fn lemma_resolution_stable_under_push<T>(
    before: Table<T>,
    after: Table<T>,
    value: T,
    p: Proxy<T>,
)
    requires
        after@ == before@.push(value),
        p.id() < before@.len(),
    ensures
        after@.len() == before@.len() + 1,
        after@[before@.len() as int] == value,
        after@[p.id() as int] == before@[p.id() as int],
{
}

/// Replacement through one handle is visible to every subsequent read:
/// after writing `v` through `p`, reading `p` yields `v`, and reading
/// any other issued handle yields the value it held before.
pub proof fn lemma_read_after_write<T>(
    before: Table<T>,
    after: Table<T>,
    p: Proxy<T>,
    v: T,
    q: Proxy<T>,
)
    requires
        after@ == before@.update(p.id() as int, v),
        p.id() < before@.len(),
        q.id() < before@.len(),
    ensures
        after@.len() == before@.len(),
        after@[q.id() as int] == (if q.id() == p.id() {
            v
        } else {
            before@[q.id() as int]
        }),
{
}

} // verus!
