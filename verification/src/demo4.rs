//! Contexts over enum members: stored element types need not be
//! structs, and links may sit inside variants.

use crate::access::{Context, Contextual, Owner};
use crate::proxy::Proxy;
use crate::table::{Table, TableIterator, TableMutIterator, TableProxyIterator};
use vstd::prelude::*;

verus! {

/// A leaf variant object owned by [`State4a`].
pub enum Foo4a {
    Base { a: i32 },
}

/// A leaf variant object owned by [`State4b`].
pub enum Foo4b {
    Base { a: i32 },
}

/// A variant holding a payload and a link to a [`Foo4b`].
pub enum Bar4b {
    Base { a: i32, foo: Proxy<Foo4b> },
}

/// A leaf variant object owned by [`State4c`].
pub enum Foo4c {
    Base { a: i32 },
}

/// A variant holding a payload and a link to a [`Foo4c`].
pub enum Bar4c {
    Base { a: i32, foo: Proxy<Foo4c> },
}

/// A variant holding a payload and a link to a [`Bar4c`].
pub enum Baz4c {
    Base { a: i32, bar: Proxy<Bar4c> },
}

impl Contextual for Foo4a {
    type Context = State4a;
}

impl Contextual for Foo4b {
    type Context = State4b;
}

impl Contextual for Bar4b {
    type Context = State4b;
}

impl Contextual for Foo4c {
    type Context = State4c;
}

impl Contextual for Bar4c {
    type Context = State4c;
}

impl Contextual for Baz4c {
    type Context = State4c;
}

/// A context storing a single enum member type.
pub struct State4a {
    pub foo: Table<Foo4a>,
}

/// A context storing two enum member types.
pub struct State4b {
    pub foo: Table<Foo4b>,
    pub bar: Table<Bar4b>,
}

/// A context storing a three-level chain of enum member types.
pub struct State4c {
    pub foo: Table<Foo4c>,
    pub bar: Table<Bar4c>,
    pub baz: Table<Baz4c>,
}

impl Owner<Foo4a> for State4a {
    open spec fn objects(&self) -> Seq<Foo4a> {
        self.foo@
    }

    open spec fn same_rest(&self, other: &Self) -> bool {
        true
    }

    fn push(&mut self, value: Foo4a) -> (p: Proxy<Foo4a>) {
        self.foo.push(value)
    }

    fn lookup(&self, proxy: &Proxy<Foo4a>) -> (r: &Foo4a) {
        self.foo.get(proxy).unwrap()
    }

    fn lookup_mut(&mut self, proxy: &Proxy<Foo4a>) -> (r: &mut Foo4a) {
        self.foo.get_mut(proxy).unwrap()
    }

    fn iterate(&self) -> (it: TableIterator<'_, Foo4a>) {
        self.foo.iter()
    }

    fn iterate_mut(&mut self) -> (it: TableMutIterator<'_, Foo4a>) {
        self.foo.iter_mut()
    }

    fn iterate_proxies(&self) -> (it: TableProxyIterator<Foo4a>) {
        self.foo.iter_proxies()
    }
}

impl Context for State4a {}

impl Owner<Foo4b> for State4b {
    open spec fn objects(&self) -> Seq<Foo4b> {
        self.foo@
    }

    open spec fn same_rest(&self, other: &Self) -> bool {
        other.bar == self.bar
    }

    fn push(&mut self, value: Foo4b) -> (p: Proxy<Foo4b>) {
        self.foo.push(value)
    }

    fn lookup(&self, proxy: &Proxy<Foo4b>) -> (r: &Foo4b) {
        self.foo.get(proxy).unwrap()
    }

    fn lookup_mut(&mut self, proxy: &Proxy<Foo4b>) -> (r: &mut Foo4b) {
        self.foo.get_mut(proxy).unwrap()
    }

    fn iterate(&self) -> (it: TableIterator<'_, Foo4b>) {
        self.foo.iter()
    }

    fn iterate_mut(&mut self) -> (it: TableMutIterator<'_, Foo4b>) {
        self.foo.iter_mut()
    }

    fn iterate_proxies(&self) -> (it: TableProxyIterator<Foo4b>) {
        self.foo.iter_proxies()
    }
}

impl Owner<Bar4b> for State4b {
    open spec fn objects(&self) -> Seq<Bar4b> {
        self.bar@
    }

    open spec fn same_rest(&self, other: &Self) -> bool {
        other.foo == self.foo
    }

    fn push(&mut self, value: Bar4b) -> (p: Proxy<Bar4b>) {
        self.bar.push(value)
    }

    fn lookup(&self, proxy: &Proxy<Bar4b>) -> (r: &Bar4b) {
        self.bar.get(proxy).unwrap()
    }

    fn lookup_mut(&mut self, proxy: &Proxy<Bar4b>) -> (r: &mut Bar4b) {
        self.bar.get_mut(proxy).unwrap()
    }

    fn iterate(&self) -> (it: TableIterator<'_, Bar4b>) {
        self.bar.iter()
    }

    fn iterate_mut(&mut self) -> (it: TableMutIterator<'_, Bar4b>) {
        self.bar.iter_mut()
    }

    fn iterate_proxies(&self) -> (it: TableProxyIterator<Bar4b>) {
        self.bar.iter_proxies()
    }
}

impl Context for State4b {}

impl Owner<Foo4c> for State4c {
    open spec fn objects(&self) -> Seq<Foo4c> {
        self.foo@
    }

    open spec fn same_rest(&self, other: &Self) -> bool {
        other.bar == self.bar && other.baz == self.baz
    }

    fn push(&mut self, value: Foo4c) -> (p: Proxy<Foo4c>) {
        self.foo.push(value)
    }

    fn lookup(&self, proxy: &Proxy<Foo4c>) -> (r: &Foo4c) {
        self.foo.get(proxy).unwrap()
    }

    fn lookup_mut(&mut self, proxy: &Proxy<Foo4c>) -> (r: &mut Foo4c) {
        self.foo.get_mut(proxy).unwrap()
    }

    fn iterate(&self) -> (it: TableIterator<'_, Foo4c>) {
        self.foo.iter()
    }

    fn iterate_mut(&mut self) -> (it: TableMutIterator<'_, Foo4c>) {
        self.foo.iter_mut()
    }

    fn iterate_proxies(&self) -> (it: TableProxyIterator<Foo4c>) {
        self.foo.iter_proxies()
    }
}

impl Owner<Bar4c> for State4c {
    open spec fn objects(&self) -> Seq<Bar4c> {
        self.bar@
    }

    open spec fn same_rest(&self, other: &Self) -> bool {
        other.foo == self.foo && other.baz == self.baz
    }

    fn push(&mut self, value: Bar4c) -> (p: Proxy<Bar4c>) {
        self.bar.push(value)
    }

    fn lookup(&self, proxy: &Proxy<Bar4c>) -> (r: &Bar4c) {
        self.bar.get(proxy).unwrap()
    }

    fn lookup_mut(&mut self, proxy: &Proxy<Bar4c>) -> (r: &mut Bar4c) {
        self.bar.get_mut(proxy).unwrap()
    }

    fn iterate(&self) -> (it: TableIterator<'_, Bar4c>) {
        self.bar.iter()
    }

    fn iterate_mut(&mut self) -> (it: TableMutIterator<'_, Bar4c>) {
        self.bar.iter_mut()
    }

    fn iterate_proxies(&self) -> (it: TableProxyIterator<Bar4c>) {
        self.bar.iter_proxies()
    }
}

impl Owner<Baz4c> for State4c {
    open spec fn objects(&self) -> Seq<Baz4c> {
        self.baz@
    }

    open spec fn same_rest(&self, other: &Self) -> bool {
        other.foo == self.foo && other.bar == self.bar
    }

    fn push(&mut self, value: Baz4c) -> (p: Proxy<Baz4c>) {
        self.baz.push(value)
    }

    fn lookup(&self, proxy: &Proxy<Baz4c>) -> (r: &Baz4c) {
        self.baz.get(proxy).unwrap()
    }

    fn lookup_mut(&mut self, proxy: &Proxy<Baz4c>) -> (r: &mut Baz4c) {
        self.baz.get_mut(proxy).unwrap()
    }

    fn iterate(&self) -> (it: TableIterator<'_, Baz4c>) {
        self.baz.iter()
    }

    fn iterate_mut(&mut self) -> (it: TableMutIterator<'_, Baz4c>) {
        self.baz.iter_mut()
    }

    fn iterate_proxies(&self) -> (it: TableProxyIterator<Baz4c>) {
        self.baz.iter_proxies()
    }
}

impl Context for State4c {}

} // verus!
