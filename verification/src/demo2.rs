//! A second worked example context, with its tables in unnamed fields:
//! dispatch is by element type, so it makes no difference whether the
//! aggregate names its tables or numbers them.

use crate::access::{Context, Contextual, Owner};
use crate::proxy::Proxy;
use crate::table::{Table, TableIterator, TableMutIterator, TableProxyIterator};
use vstd::prelude::*;

verus! {

/// A leaf object owned by [`State2`].
#[derive(PartialEq, Eq, PartialOrd, Ord, Hash)]
pub struct Foo2 {
    pub a: i32,
}

/// Holds a payload and a link to a [`Foo2`].
pub struct Bar2 {
    pub a: i32,
    pub foo: Proxy<Foo2>,
}

/// Holds a payload and a link to a [`Bar2`].
pub struct Baz2 {
    pub a: i32,
    pub bar: Proxy<Bar2>,
}

impl Contextual for Foo2 {
    type Context = State2;
}

impl Contextual for Bar2 {
    type Context = State2;
}

impl Contextual for Baz2 {
    type Context = State2;
}

/// A context storing [`Foo2`], [`Bar2`] and [`Baz2`] objects in unnamed
/// tables.
pub struct State2(pub Table<Foo2>, pub Table<Bar2>, pub Table<Baz2>);

impl Owner<Foo2> for State2 {
    open spec fn objects(&self) -> Seq<Foo2> {
        self.0@
    }

    open spec fn same_rest(&self, other: &Self) -> bool {
        other.1 == self.1 && other.2 == self.2
    }

    fn push(&mut self, value: Foo2) -> (p: Proxy<Foo2>) {
        self.0.push(value)
    }

    fn lookup(&self, proxy: &Proxy<Foo2>) -> (r: &Foo2) {
        self.0.get(proxy).unwrap()
    }

    fn lookup_mut(&mut self, proxy: &Proxy<Foo2>) -> (r: &mut Foo2) {
        self.0.get_mut(proxy).unwrap()
    }

    fn iterate(&self) -> (it: TableIterator<'_, Foo2>) {
        self.0.iter()
    }

    fn iterate_mut(&mut self) -> (it: TableMutIterator<'_, Foo2>) {
        self.0.iter_mut()
    }

    fn iterate_proxies(&self) -> (it: TableProxyIterator<Foo2>) {
        self.0.iter_proxies()
    }
}

impl Owner<Bar2> for State2 {
    open spec fn objects(&self) -> Seq<Bar2> {
        self.1@
    }

    open spec fn same_rest(&self, other: &Self) -> bool {
        other.0 == self.0 && other.2 == self.2
    }

    fn push(&mut self, value: Bar2) -> (p: Proxy<Bar2>) {
        self.1.push(value)
    }

    fn lookup(&self, proxy: &Proxy<Bar2>) -> (r: &Bar2) {
        self.1.get(proxy).unwrap()
    }

    fn lookup_mut(&mut self, proxy: &Proxy<Bar2>) -> (r: &mut Bar2) {
        self.1.get_mut(proxy).unwrap()
    }

    fn iterate(&self) -> (it: TableIterator<'_, Bar2>) {
        self.1.iter()
    }

    fn iterate_mut(&mut self) -> (it: TableMutIterator<'_, Bar2>) {
        self.1.iter_mut()
    }

    fn iterate_proxies(&self) -> (it: TableProxyIterator<Bar2>) {
        self.1.iter_proxies()
    }
}

impl Owner<Baz2> for State2 {
    open spec fn objects(&self) -> Seq<Baz2> {
        self.2@
    }

    open spec fn same_rest(&self, other: &Self) -> bool {
        other.0 == self.0 && other.1 == self.1
    }

    fn push(&mut self, value: Baz2) -> (p: Proxy<Baz2>) {
        self.2.push(value)
    }

    fn lookup(&self, proxy: &Proxy<Baz2>) -> (r: &Baz2) {
        self.2.get(proxy).unwrap()
    }

    fn lookup_mut(&mut self, proxy: &Proxy<Baz2>) -> (r: &mut Baz2) {
        self.2.get_mut(proxy).unwrap()
    }

    fn iterate(&self) -> (it: TableIterator<'_, Baz2>) {
        self.2.iter()
    }

    fn iterate_mut(&mut self) -> (it: TableMutIterator<'_, Baz2>) {
        self.2.iter_mut()
    }

    fn iterate_proxies(&self) -> (it: TableProxyIterator<Baz2>) {
        self.2.iter_proxies()
    }
}

impl Context for State2 {}

} // verus!
