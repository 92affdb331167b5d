//! Contexts of graded width over struct members: an aggregate may mark
//! any subset of the member-type pattern for storage, from a single
//! table up to the full three-level chain, with each member type
//! declaring its one owning context.

use crate::access::{Context, Contextual, Owner};
use crate::proxy::Proxy;
use crate::table::{Table, TableIterator, TableMutIterator, TableProxyIterator};
use vstd::prelude::*;

verus! {

/// A leaf object owned by [`State3a`].
pub struct Foo3a {
    pub a: i32,
}

/// A leaf object owned by [`State3b`].
pub struct Foo3b {
    pub a: i32,
}

/// Holds a payload and a link to a [`Foo3b`].
pub struct Bar3b {
    pub a: i32,
    pub foo: Proxy<Foo3b>,
}

/// A leaf object owned by [`State3c`].
pub struct Foo3c {
    pub a: i32,
}

/// Holds a payload and a link to a [`Foo3c`].
pub struct Bar3c {
    pub a: i32,
    pub foo: Proxy<Foo3c>,
}

/// Holds a payload and a link to a [`Bar3c`].
pub struct Baz3c {
    pub a: i32,
    pub bar: Proxy<Bar3c>,
}

impl Contextual for Foo3a {
    type Context = State3a;
}

impl Contextual for Foo3b {
    type Context = State3b;
}

impl Contextual for Bar3b {
    type Context = State3b;
}

impl Contextual for Foo3c {
    type Context = State3c;
}

impl Contextual for Bar3c {
    type Context = State3c;
}

impl Contextual for Baz3c {
    type Context = State3c;
}

/// A context storing a single member type.
pub struct State3a {
    pub foo: Table<Foo3a>,
}

/// A context storing two member types.
pub struct State3b {
    pub foo: Table<Foo3b>,
    pub bar: Table<Bar3b>,
}

/// A context storing the full three-level chain.
pub struct State3c {
    pub foo: Table<Foo3c>,
    pub bar: Table<Bar3c>,
    pub baz: Table<Baz3c>,
}

impl Owner<Foo3a> for State3a {
    open spec fn objects(&self) -> Seq<Foo3a> {
        self.foo@
    }

    open spec fn same_rest(&self, other: &Self) -> bool {
        true
    }

    fn push(&mut self, value: Foo3a) -> (p: Proxy<Foo3a>) {
        self.foo.push(value)
    }

    fn lookup(&self, proxy: &Proxy<Foo3a>) -> (r: &Foo3a) {
        self.foo.get(proxy).unwrap()
    }

    fn lookup_mut(&mut self, proxy: &Proxy<Foo3a>) -> (r: &mut Foo3a) {
        self.foo.get_mut(proxy).unwrap()
    }

    fn iterate(&self) -> (it: TableIterator<'_, Foo3a>) {
        self.foo.iter()
    }

    fn iterate_mut(&mut self) -> (it: TableMutIterator<'_, Foo3a>) {
        self.foo.iter_mut()
    }

    fn iterate_proxies(&self) -> (it: TableProxyIterator<Foo3a>) {
        self.foo.iter_proxies()
    }
}

impl Context for State3a {}

impl Owner<Foo3b> for State3b {
    open spec fn objects(&self) -> Seq<Foo3b> {
        self.foo@
    }

    open spec fn same_rest(&self, other: &Self) -> bool {
        other.bar == self.bar
    }

    fn push(&mut self, value: Foo3b) -> (p: Proxy<Foo3b>) {
        self.foo.push(value)
    }

    fn lookup(&self, proxy: &Proxy<Foo3b>) -> (r: &Foo3b) {
        self.foo.get(proxy).unwrap()
    }

    fn lookup_mut(&mut self, proxy: &Proxy<Foo3b>) -> (r: &mut Foo3b) {
        self.foo.get_mut(proxy).unwrap()
    }

    fn iterate(&self) -> (it: TableIterator<'_, Foo3b>) {
        self.foo.iter()
    }

    fn iterate_mut(&mut self) -> (it: TableMutIterator<'_, Foo3b>) {
        self.foo.iter_mut()
    }

    fn iterate_proxies(&self) -> (it: TableProxyIterator<Foo3b>) {
        self.foo.iter_proxies()
    }
}

impl Owner<Bar3b> for State3b {
    open spec fn objects(&self) -> Seq<Bar3b> {
        self.bar@
    }

    open spec fn same_rest(&self, other: &Self) -> bool {
        other.foo == self.foo
    }

    fn push(&mut self, value: Bar3b) -> (p: Proxy<Bar3b>) {
        self.bar.push(value)
    }

    fn lookup(&self, proxy: &Proxy<Bar3b>) -> (r: &Bar3b) {
        self.bar.get(proxy).unwrap()
    }

    fn lookup_mut(&mut self, proxy: &Proxy<Bar3b>) -> (r: &mut Bar3b) {
        self.bar.get_mut(proxy).unwrap()
    }

    fn iterate(&self) -> (it: TableIterator<'_, Bar3b>) {
        self.bar.iter()
    }

    fn iterate_mut(&mut self) -> (it: TableMutIterator<'_, Bar3b>) {
        self.bar.iter_mut()
    }

    fn iterate_proxies(&self) -> (it: TableProxyIterator<Bar3b>) {
        self.bar.iter_proxies()
    }
}

impl Context for State3b {}

impl Owner<Foo3c> for State3c {
    open spec fn objects(&self) -> Seq<Foo3c> {
        self.foo@
    }

    open spec fn same_rest(&self, other: &Self) -> bool {
        other.bar == self.bar && other.baz == self.baz
    }

    fn push(&mut self, value: Foo3c) -> (p: Proxy<Foo3c>) {
        self.foo.push(value)
    }

    fn lookup(&self, proxy: &Proxy<Foo3c>) -> (r: &Foo3c) {
        self.foo.get(proxy).unwrap()
    }

    fn lookup_mut(&mut self, proxy: &Proxy<Foo3c>) -> (r: &mut Foo3c) {
        self.foo.get_mut(proxy).unwrap()
    }

    fn iterate(&self) -> (it: TableIterator<'_, Foo3c>) {
        self.foo.iter()
    }

    fn iterate_mut(&mut self) -> (it: TableMutIterator<'_, Foo3c>) {
        self.foo.iter_mut()
    }

    fn iterate_proxies(&self) -> (it: TableProxyIterator<Foo3c>) {
        self.foo.iter_proxies()
    }
}

impl Owner<Bar3c> for State3c {
    open spec fn objects(&self) -> Seq<Bar3c> {
        self.bar@
    }

    open spec fn same_rest(&self, other: &Self) -> bool {
        other.foo == self.foo && other.baz == self.baz
    }

    fn push(&mut self, value: Bar3c) -> (p: Proxy<Bar3c>) {
        self.bar.push(value)
    }

    fn lookup(&self, proxy: &Proxy<Bar3c>) -> (r: &Bar3c) {
        self.bar.get(proxy).unwrap()
    }

    fn lookup_mut(&mut self, proxy: &Proxy<Bar3c>) -> (r: &mut Bar3c) {
        self.bar.get_mut(proxy).unwrap()
    }

    fn iterate(&self) -> (it: TableIterator<'_, Bar3c>) {
        self.bar.iter()
    }

    fn iterate_mut(&mut self) -> (it: TableMutIterator<'_, Bar3c>) {
        self.bar.iter_mut()
    }

    fn iterate_proxies(&self) -> (it: TableProxyIterator<Bar3c>) {
        self.bar.iter_proxies()
    }
}

impl Owner<Baz3c> for State3c {
    open spec fn objects(&self) -> Seq<Baz3c> {
        self.baz@
    }

    open spec fn same_rest(&self, other: &Self) -> bool {
        other.foo == self.foo && other.bar == self.bar
    }

    fn push(&mut self, value: Baz3c) -> (p: Proxy<Baz3c>) {
        self.baz.push(value)
    }

    fn lookup(&self, proxy: &Proxy<Baz3c>) -> (r: &Baz3c) {
        self.baz.get(proxy).unwrap()
    }

    fn lookup_mut(&mut self, proxy: &Proxy<Baz3c>) -> (r: &mut Baz3c) {
        self.baz.get_mut(proxy).unwrap()
    }

    fn iterate(&self) -> (it: TableIterator<'_, Baz3c>) {
        self.baz.iter()
    }

    fn iterate_mut(&mut self) -> (it: TableMutIterator<'_, Baz3c>) {
        self.baz.iter_mut()
    }

    fn iterate_proxies(&self) -> (it: TableProxyIterator<Baz3c>) {
        self.baz.iter_proxies()
    }
}

impl Context for State3c {}

} // verus!
