use core::cmp::Ordering;
use vstd::prelude::*;

verus! {

/// A handle to an item stored in some context.
///
/// A proxy is a link between objects: many objects may hold proxies for a
/// single stored value without any one of them owning it.  Resolving the
/// link back into a reference requires presenting the proxy to the table
/// (or context) that issued it.
///
/// Identity, ordering and equality are defined solely on the 64-bit index
/// a table assigns at insertion time; the type tag `T` exists only at
/// compile time and keeps handles for different element types apart.
#[derive(Hash, Ord)]
pub struct Proxy<T> {
    _marker: core::marker::PhantomData<T>,
    index: u64,
}

impl<T> Proxy<T> {
    /// The index this handle was issued with.
    pub closed spec fn id(self) -> u64 {
        self.index
    }

    /// Issue the handle with the given index.  Only tables create handles,
    /// so this stays inside the crate.
    pub(crate) fn from_index(index: u64) -> (p: Proxy<T>)
        ensures
            p.id() == index,
    {
        Proxy { _marker: core::marker::PhantomData, index }
    }

    /// The index as a run-time value, for the owning table's lookups.
    pub(crate) fn index(&self) -> (i: u64)
        ensures
            i == self.id(),
    {
        self.index
    }

    /// How `self` is ordered against `other`: by index alone.
    pub open spec fn order(self, other: Proxy<T>) -> Ordering {
        if self.id() < other.id() {
            Ordering::Less
        } else if self.id() == other.id() {
            Ordering::Equal
        } else {
            Ordering::Greater
        }
    }

    /// Total order on handles, by index.
    pub fn cmp(&self, other: &Proxy<T>) -> (r: Ordering)
        ensures
            r == self.order(*other),
    {
        if self.index < other.index {
            Ordering::Less
        } else if self.index == other.index {
            Ordering::Equal
        } else {
            Ordering::Greater
        }
    }
}

impl<T> Clone for Proxy<T> {
    fn clone(&self) -> (r: Self)
        ensures
            r == *self,
    {
        *self
    }
}

impl<T> Copy for Proxy<T> {}

impl<T> PartialEq for Proxy<T> {
    fn eq(&self, other: &Proxy<T>) -> (r: bool) {
        self.index == other.index
    }
}

impl<T> vstd::std_specs::cmp::PartialEqSpecImpl for Proxy<T> {
    open spec fn obeys_eq_spec() -> bool {
        true
    }

    open spec fn eq_spec(&self, other: &Proxy<T>) -> bool {
        self.id() == other.id()
    }
}

impl<T> Eq for Proxy<T> {}

impl<T> PartialOrd for Proxy<T> {
    fn partial_cmp(&self, other: &Proxy<T>) -> (r: Option<Ordering>) {
        Some(self.cmp(other))
    }
}

impl<T> vstd::std_specs::cmp::PartialOrdSpecImpl for Proxy<T> {
    open spec fn obeys_partial_cmp_spec() -> bool {
        true
    }

    open spec fn partial_cmp_spec(&self, other: &Proxy<T>) -> Option<Ordering> {
        Some(self.order(*other))
    }
}

} // verus!
