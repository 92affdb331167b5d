use crate::proxy::Proxy;
use crate::table::{TableIterator, TableMutIterator, TableProxyIterator};
use vstd::prelude::*;

verus! {

/// Something that is associated to a context.
///
/// An implementor expects its values to be stored in a [`Table`] held by
/// some [`Context`] type; declaring that single owning context here is
/// what keeps a [`Proxy`] for one context from being presented, by type
/// error rather than by accident, to another.
///
/// [`Table`]: crate::Table
pub trait Contextual {
    /// The [`Context`] type which owns values of this type.
    type Context;
}

/// A holder for [`Contextual`] types.
///
/// The implementor is the sole owner of the objects it contains, holding
/// exactly one table per participating element type, and is the only
/// authority that issues proxies for them.  Lookups here are spelled for
/// callers who know their proxies are valid: a proxy must lie inside the
/// issued range of the matching table, and in exchange resolution always
/// succeeds.  The fallible, checked lookup lives on [`Table`] itself.
///
/// [`Table`]: crate::Table
pub trait Context: Sized {
    /// Insert the given value, returning a [`Proxy`] for it.
    fn add<T>(&mut self, value: T) -> (p: Proxy<T>) where
        Self: Owner<T>,
        T: Contextual<Context = Self>,

        ensures
            final(self).objects() == old(self).objects().push(value),
            p.id() == old(self).objects().len(),
            old(self).same_rest(final(self)),
    {
        <Self as Owner<T>>::push(self, value)
    }

    /// Retrieve a reference to a value from a [`Proxy`].
    fn get<T>(&self, what: &Proxy<T>) -> (r: &T) where
        Self: Owner<T>,
        T: Contextual<Context = Self>,

        requires
            what.id() < self.objects().len(),
        ensures
            *r == self.objects()[what.id() as int],
    {
        <Self as Owner<T>>::lookup(self, what)
    }

    /// Retrieve a mutable reference to a value from a [`Proxy`].
    fn get_mut<T>(&mut self, what: &Proxy<T>) -> (r: &mut T) where
        Self: Owner<T>,
        T: Contextual<Context = Self>,

        requires
            what.id() < old(self).objects().len(),
        ensures
            *r == old(self).objects()[what.id() as int],
            final(self).objects() == old(self).objects().update(what.id() as int, *final(r)),
            old(self).same_rest(final(self)),
    {
        <Self as Owner<T>>::lookup_mut(self, what)
    }

    /// Iterate over the values currently stored, in insertion order.
    fn get_iter<T>(&self) -> (it: TableIterator<'_, T>) where
        Self: Owner<T>,
        T: Contextual<Context = Self>,

        ensures
            it.elems() == self.objects(),
            it.position() == 0,
    {
        <Self as Owner<T>>::iterate(self)
    }

    /// Mutably iterate over the values currently stored, in insertion
    /// order.  Calling [`TableMutIterator::finish`] when done ties the
    /// edits back to this context's view.
    fn get_iter_mut<T>(&mut self) -> (it: TableMutIterator<'_, T>) where
        Self: Owner<T>,
        T: Contextual<Context = Self>,

        ensures
            it.elems() == old(self).objects(),
            it.position() == 0,
            final(self).objects() == final(it.target())@,
            old(self).same_rest(final(self)),
    {
        <Self as Owner<T>>::iterate_mut(self)
    }

    /// Iterate over proxies for the values currently stored, in ascending
    /// index order.
    fn get_proxy_iter<T>(&self) -> (it: TableProxyIterator<T>) where
        Self: Owner<T>,
        T: Contextual<Context = Self>,

        ensures
            it.position() == 0,
            it.limit() == self.objects().len(),
    {
        <Self as Owner<T>>::iterate_proxies(self)
    }
}

/// A type that owns (is the exclusive holder of) one [`Contextual`] type.
///
/// This is the [`Context`] interface specialised to a single element
/// type: one implementation exists per (context, element) pair, written
/// out alongside the context's storage, and the polymorphic context
/// methods delegate to it.  Generic code names this trait in bounds to
/// assert that a context can store and resolve a given type, but calls
/// go through the [`Context`] interface.
pub trait Owner<T> where T: Contextual<Context = Self> {
    /// The objects stored for this element type, in insertion order.
    /// The proxy with index `i` refers to the `i`-th entry.
    spec fn objects(&self) -> Seq<T>;

    /// Whether `other` stores exactly what `self` stores for every
    /// element type but `T`: the frame of this type's mutating
    /// operations.  Each implementation defines it as "every other
    /// table of the aggregate is unchanged", and the mutating methods
    /// promise it of their before and after states, so inserting or
    /// editing objects of one type never disturbs what a handle of
    /// another type resolves to.
    spec fn same_rest(&self, other: &Self) -> bool;

    /// Insert the given value into this type's table, obtaining a
    /// [`Proxy`] for it.
    fn push(&mut self, value: T) -> (p: Proxy<T>)
        ensures
            final(self).objects() == old(self).objects().push(value),
            p.id() == old(self).objects().len(),
            old(self).same_rest(final(self)),
    ;

    /// Get a shared reference to a value from a [`Proxy`] for it.
    fn lookup(&self, proxy: &Proxy<T>) -> (r: &T)
        requires
            proxy.id() < self.objects().len(),
        ensures
            *r == self.objects()[proxy.id() as int],
    ;

    /// Get an exclusive reference to a value from a [`Proxy`] for it.
    fn lookup_mut(&mut self, proxy: &Proxy<T>) -> (r: &mut T)
        requires
            proxy.id() < old(self).objects().len(),
        ensures
            *r == old(self).objects()[proxy.id() as int],
            final(self).objects() == old(self).objects().update(proxy.id() as int, *final(r)),
            old(self).same_rest(final(self)),
    ;

    /// Iterate over shared references to the stored values.
    fn iterate(&self) -> (it: TableIterator<'_, T>)
        ensures
            it.elems() == self.objects(),
            it.position() == 0,
    ;

    /// Iterate over exclusive references to the stored values.
    fn iterate_mut(&mut self) -> (it: TableMutIterator<'_, T>)
        ensures
            it.elems() == old(self).objects(),
            it.position() == 0,
            final(self).objects() == final(it.target())@,
            old(self).same_rest(final(self)),
    ;

    /// Iterate over [`Proxy`] objects for the stored values.
    fn iterate_proxies(&self) -> (it: TableProxyIterator<T>)
        ensures
            it.position() == 0,
            it.limit() == self.objects().len(),
    ;
}

/// A read capability over a [`Context`], independent of how the context
/// is held.
///
/// Algorithms written against an `Accessor` can be handed a plain shared
/// reference to a context, or a shared-ownership handle to one, without
/// change.  Every operation forwards to the wrapped context unchanged in
/// semantics, so reading through an accessor is the same as reading from
/// the context itself.
pub trait Accessor: Clone {
    /// The [`Context`] type this capability reads.
    type Context: Context;

    /// The context value this capability currently reads.
    spec fn ctx(&self) -> Self::Context;

    /// Retrieve a reference to a value from a [`Proxy`].
    fn get<T>(&self, what: &Proxy<T>) -> (r: &T) where
        Self::Context: Owner<T>,
        T: Contextual<Context = Self::Context>,

        requires
            what.id() < self.ctx().objects().len(),
        ensures
            *r == self.ctx().objects()[what.id() as int],
    ;

    /// Iterate over the values currently stored, in insertion order.
    fn get_iter<T>(&self) -> (it: TableIterator<'_, T>) where
        Self::Context: Owner<T>,
        T: Contextual<Context = Self::Context>,

        ensures
            it.elems() == self.ctx().objects(),
            it.position() == 0,
    ;

    /// Iterate over proxies for the values currently stored, in
    /// ascending index order.
    fn get_proxy_iter<T>(&self) -> (it: TableProxyIterator<T>) where
        Self::Context: Owner<T>,
        T: Contextual<Context = Self::Context>,

        ensures
            it.position() == 0,
            it.limit() == self.ctx().objects().len(),
    ;
}

/// A read-write capability over a [`Context`], independent of how the
/// context is held.
///
/// The read-write counterpart of [`Accessor`]: an exclusive reference to
/// a context is the plainest mutator.  Every operation forwards to the
/// wrapped context unchanged in semantics, so working through a mutator
/// is the same as working on the context itself.
pub trait Mutator {
    /// The [`Context`] type this capability works on.
    type Context: Context;

    /// The context value this capability currently works on.
    spec fn ctx(&self) -> Self::Context;

    /// Insert the given value, returning a [`Proxy`] for it.
    fn add<T>(&mut self, value: T) -> (p: Proxy<T>) where
        Self::Context: Owner<T>,
        T: Contextual<Context = Self::Context>,

        ensures
            final(self).ctx().objects() == old(self).ctx().objects().push(value),
            p.id() == old(self).ctx().objects().len(),
            old(self).ctx().same_rest(&final(self).ctx()),
    ;

    /// Retrieve a reference to a value from a [`Proxy`].
    fn get<T>(&self, what: &Proxy<T>) -> (r: &T) where
        Self::Context: Owner<T>,
        T: Contextual<Context = Self::Context>,

        requires
            what.id() < self.ctx().objects().len(),
        ensures
            *r == self.ctx().objects()[what.id() as int],
    ;

    /// Retrieve a mutable reference to a value from a [`Proxy`].
    fn get_mut<T>(&mut self, what: &Proxy<T>) -> (r: &mut T) where
        Self::Context: Owner<T>,
        T: Contextual<Context = Self::Context>,

        requires
            what.id() < old(self).ctx().objects().len(),
        ensures
            *r == old(self).ctx().objects()[what.id() as int],
            final(self).ctx().objects() == old(self).ctx().objects().update(
                what.id() as int,
                *final(r),
            ),
            old(self).ctx().same_rest(&final(self).ctx()),
    ;

    /// Iterate over the values currently stored, in insertion order.
    fn get_iter<T>(&self) -> (it: TableIterator<'_, T>) where
        Self::Context: Owner<T>,
        T: Contextual<Context = Self::Context>,

        ensures
            it.elems() == self.ctx().objects(),
            it.position() == 0,
    ;

    /// Mutably iterate over the values currently stored, in insertion
    /// order.  Calling [`TableMutIterator::finish`] when done ties the
    /// edits back to the wrapped context's view.
    fn get_iter_mut<T>(&mut self) -> (it: TableMutIterator<'_, T>) where
        Self::Context: Owner<T>,
        T: Contextual<Context = Self::Context>,

        ensures
            it.elems() == old(self).ctx().objects(),
            it.position() == 0,
            final(self).ctx().objects() == final(it.target())@,
            old(self).ctx().same_rest(&final(self).ctx()),
    ;

    /// Iterate over proxies for the values currently stored, in
    /// ascending index order.
    fn get_proxy_iter<T>(&self) -> (it: TableProxyIterator<T>) where
        Self::Context: Owner<T>,
        T: Contextual<Context = Self::Context>,

        ensures
            it.position() == 0,
            it.limit() == self.ctx().objects().len(),
    ;
}

impl<'a, C: Context> Accessor for &'a C {
    type Context = C;

    open spec fn ctx(&self) -> C {
        **self
    }

    fn get<T>(&self, what: &Proxy<T>) -> (r: &T) where
        C: Owner<T>,
        T: Contextual<Context = C>,
    {
        <C as Context>::get(*self, what)
    }

    fn get_iter<T>(&self) -> (it: TableIterator<'_, T>) where
        C: Owner<T>,
        T: Contextual<Context = C>,
    {
        <C as Context>::get_iter(*self)
    }

    fn get_proxy_iter<T>(&self) -> (it: TableProxyIterator<T>) where
        C: Owner<T>,
        T: Contextual<Context = C>,
    {
        <C as Context>::get_proxy_iter(*self)
    }
}

impl<C: Context> Accessor for std::sync::Arc<C> {
    type Context = C;

    open spec fn ctx(&self) -> C {
        **self
    }

    fn get<T>(&self, what: &Proxy<T>) -> (r: &T) where
        C: Owner<T>,
        T: Contextual<Context = C>,
    {
        <C as Context>::get(&**self, what)
    }

    fn get_iter<T>(&self) -> (it: TableIterator<'_, T>) where
        C: Owner<T>,
        T: Contextual<Context = C>,
    {
        <C as Context>::get_iter(&**self)
    }

    fn get_proxy_iter<T>(&self) -> (it: TableProxyIterator<T>) where
        C: Owner<T>,
        T: Contextual<Context = C>,
    {
        <C as Context>::get_proxy_iter(&**self)
    }
}

impl<'a, C: Context> Mutator for &'a mut C {
    type Context = C;

    open spec fn ctx(&self) -> C {
        **self
    }

    fn add<T>(&mut self, value: T) -> (p: Proxy<T>) where
        C: Owner<T>,
        T: Contextual<Context = C>,
    {
        <C as Context>::add(&mut **self, value)
    }

    fn get<T>(&self, what: &Proxy<T>) -> (r: &T) where
        C: Owner<T>,
        T: Contextual<Context = C>,
    {
        <C as Context>::get(*self, what)
    }

    fn get_mut<T>(&mut self, what: &Proxy<T>) -> (r: &mut T) where
        C: Owner<T>,
        T: Contextual<Context = C>,
    {
        <C as Context>::get_mut(&mut **self, what)
    }

    fn get_iter<T>(&self) -> (it: TableIterator<'_, T>) where
        C: Owner<T>,
        T: Contextual<Context = C>,
    {
        <C as Context>::get_iter(*self)
    }

    fn get_iter_mut<T>(&mut self) -> (it: TableMutIterator<'_, T>) where
        C: Owner<T>,
        T: Contextual<Context = C>,
    {
        <C as Context>::get_iter_mut(&mut **self)
    }

    fn get_proxy_iter<T>(&self) -> (it: TableProxyIterator<T>) where
        C: Owner<T>,
        T: Contextual<Context = C>,
    {
        <C as Context>::get_proxy_iter(*self)
    }
}

} // verus!
