//! Worked example contexts, written out by hand exactly the way the
//! declarative schema expansion produces them: one [`Table`] field per
//! member type, one [`Owner`] implementation per (context, member) pair,
//! a [`Context`] implementation for the aggregate, and a [`Contextual`]
//! implementation per member type.  Each [`Owner`] implementation
//! defines its frame, `same_rest`, as "every other table of the
//! aggregate is unchanged", which the mutating operations promise of
//! their before and after states.  The crate's tests exercise the
//! substrate through these.
//!
//! The reader functions at the bottom show how algorithms are written
//! against a generic [`Accessor`] capability rather than a concrete
//! context holder.

use crate::access::{Accessor, Context, Contextual, Owner};
use crate::proxy::Proxy;
use crate::table::{Table, TableIterator, TableMutIterator, TableProxyIterator};
use vstd::prelude::*;

verus! {

/// A leaf object: holds a payload and no links.
pub struct Foo {
    pub a: i32,
}

/// Holds a payload and a link to a [`Foo`].
pub struct Bar {
    pub a: i32,
    pub foo: Proxy<Foo>,
}

/// Holds a payload and a link to a [`Bar`].
pub struct Baz {
    pub a: i32,
    pub bar: Proxy<Bar>,
}

impl Contextual for Foo {
    type Context = State;
}

impl Contextual for Bar {
    type Context = State;
}

impl Contextual for Baz {
    type Context = State;
}

/// A context storing [`Foo`], [`Bar`] and [`Baz`] objects in named
/// tables.
pub struct State {
    pub foo: Table<Foo>,
    pub bar: Table<Bar>,
    pub baz: Table<Baz>,
}

impl Owner<Foo> for State {
    open spec fn objects(&self) -> Seq<Foo> {
        self.foo@
    }

    open spec fn same_rest(&self, other: &Self) -> bool {
        other.bar == self.bar && other.baz == self.baz
    }

    fn push(&mut self, value: Foo) -> (p: Proxy<Foo>) {
        self.foo.push(value)
    }

    fn lookup(&self, proxy: &Proxy<Foo>) -> (r: &Foo) {
        self.foo.get(proxy).unwrap()
    }

    fn lookup_mut(&mut self, proxy: &Proxy<Foo>) -> (r: &mut Foo) {
        self.foo.get_mut(proxy).unwrap()
    }

    fn iterate(&self) -> (it: TableIterator<'_, Foo>) {
        self.foo.iter()
    }

    fn iterate_mut(&mut self) -> (it: TableMutIterator<'_, Foo>) {
        self.foo.iter_mut()
    }

    fn iterate_proxies(&self) -> (it: TableProxyIterator<Foo>) {
        self.foo.iter_proxies()
    }
}

impl Owner<Bar> for State {
    open spec fn objects(&self) -> Seq<Bar> {
        self.bar@
    }

    open spec fn same_rest(&self, other: &Self) -> bool {
        other.foo == self.foo && other.baz == self.baz
    }

    fn push(&mut self, value: Bar) -> (p: Proxy<Bar>) {
        self.bar.push(value)
    }

    fn lookup(&self, proxy: &Proxy<Bar>) -> (r: &Bar) {
        self.bar.get(proxy).unwrap()
    }

    fn lookup_mut(&mut self, proxy: &Proxy<Bar>) -> (r: &mut Bar) {
        self.bar.get_mut(proxy).unwrap()
    }

    fn iterate(&self) -> (it: TableIterator<'_, Bar>) {
        self.bar.iter()
    }

    fn iterate_mut(&mut self) -> (it: TableMutIterator<'_, Bar>) {
        self.bar.iter_mut()
    }

    fn iterate_proxies(&self) -> (it: TableProxyIterator<Bar>) {
        self.bar.iter_proxies()
    }
}

impl Owner<Baz> for State {
    open spec fn objects(&self) -> Seq<Baz> {
        self.baz@
    }

    open spec fn same_rest(&self, other: &Self) -> bool {
        other.foo == self.foo && other.bar == self.bar
    }

    fn push(&mut self, value: Baz) -> (p: Proxy<Baz>) {
        self.baz.push(value)
    }

    fn lookup(&self, proxy: &Proxy<Baz>) -> (r: &Baz) {
        self.baz.get(proxy).unwrap()
    }

    fn lookup_mut(&mut self, proxy: &Proxy<Baz>) -> (r: &mut Baz) {
        self.baz.get_mut(proxy).unwrap()
    }

    fn iterate(&self) -> (it: TableIterator<'_, Baz>) {
        self.baz.iter()
    }

    fn iterate_mut(&mut self) -> (it: TableMutIterator<'_, Baz>) {
        self.baz.iter_mut()
    }

    fn iterate_proxies(&self) -> (it: TableProxyIterator<Baz>) {
        self.baz.iter_proxies()
    }
}

impl Context for State {}

/// The [`Foo`] objects a [`State`] stores.
pub open spec fn state_foos(s: State) -> Seq<Foo> {
    <State as Owner<Foo>>::objects(&s)
}

/// The [`Bar`] objects a [`State`] stores.
pub open spec fn state_bars(s: State) -> Seq<Bar> {
    <State as Owner<Bar>>::objects(&s)
}

/// The [`Baz`] objects a [`State`] stores.
pub open spec fn state_bazs(s: State) -> Seq<Baz> {
    <State as Owner<Baz>>::objects(&s)
}

/// Whether `p` resolves in `s`'s [`Foo`] table.
pub open spec fn has_foo(s: State, p: Proxy<Foo>) -> bool {
    p.id() < state_foos(s).len()
}

/// Whether `p` resolves in `s`'s [`Bar`] table.
pub open spec fn has_bar(s: State, p: Proxy<Bar>) -> bool {
    p.id() < state_bars(s).len()
}

/// Whether `p` resolves in `s`'s [`Baz`] table.
pub open spec fn has_baz(s: State, p: Proxy<Baz>) -> bool {
    p.id() < state_bazs(s).len()
}

/// The [`Foo`] that `p` resolves to in `s`.
pub open spec fn foo_at(s: State, p: Proxy<Foo>) -> Foo {
    state_foos(s)[p.id() as int]
}

/// The [`Bar`] that `p` resolves to in `s`.
pub open spec fn bar_at(s: State, p: Proxy<Bar>) -> Bar {
    state_bars(s)[p.id() as int]
}

/// The [`Baz`] that `p` resolves to in `s`.
pub open spec fn baz_at(s: State, p: Proxy<Baz>) -> Baz {
    state_bazs(s)[p.id() as int]
}

impl Foo {
    /// The payload held by this object.
    pub fn read_a(&self) -> (r: i32)
        ensures
            r == self.a,
    {
        self.a
    }

    /// The payload of the object `p` resolves to.
    pub fn read_proxy_a<A: Accessor<Context = State>>(p: &Proxy<Foo>, access: A) -> (r: i32)
        requires
            has_foo(access.ctx(), *p),
        ensures
            r == foo_at(access.ctx(), *p).a,
    {
        access.get(p).a
    }
}

impl Bar {
    /// The payload held by this object.
    pub fn read_a(&self) -> (r: i32)
        ensures
            r == self.a,
    {
        self.a
    }

    /// The payload of the [`Foo`] this object links to.
    pub fn read_foo_a<A: Accessor<Context = State>>(&self, access: A) -> (r: i32)
        requires
            has_foo(access.ctx(), self.foo),
        ensures
            r == foo_at(access.ctx(), self.foo).a,
    {
        access.get(&self.foo).a
    }

    /// The payload of the object `p` resolves to.
    pub fn read_proxy_a<A: Accessor<Context = State>>(p: &Proxy<Bar>, access: A) -> (r: i32)
        requires
            has_bar(access.ctx(), *p),
        ensures
            r == bar_at(access.ctx(), *p).a,
    {
        access.get(p).a
    }

    /// The payload of the [`Foo`] linked from the object `p` resolves to.
    pub fn read_proxy_foo_a<A: Accessor<Context = State>>(p: &Proxy<Bar>, access: A) -> (r: i32)
        requires
            has_bar(access.ctx(), *p),
            has_foo(access.ctx(), bar_at(access.ctx(), *p).foo),
        ensures
            r == foo_at(access.ctx(), bar_at(access.ctx(), *p).foo).a,
    {
        access.get(&access.get(p).foo).a
    }
}

impl Baz {
    /// The payload held by this object.
    pub fn read_a(&self) -> (r: i32)
        ensures
            r == self.a,
    {
        self.a
    }

    /// The payload of the [`Bar`] this object links to.
    pub fn read_bar_a<A: Accessor<Context = State>>(&self, access: A) -> (r: i32)
        requires
            has_bar(access.ctx(), self.bar),
        ensures
            r == bar_at(access.ctx(), self.bar).a,
    {
        access.get(&self.bar).a
    }

    /// The payload at the end of the link chain starting at this object.
    pub fn read_bar_foo_a<A: Accessor<Context = State>>(&self, access: A) -> (r: i32)
        requires
            has_bar(access.ctx(), self.bar),
            has_foo(access.ctx(), bar_at(access.ctx(), self.bar).foo),
        ensures
            r == foo_at(access.ctx(), bar_at(access.ctx(), self.bar).foo).a,
    {
        access.get(&access.get(&self.bar).foo).a
    }

    /// The payload of the object `p` resolves to.
    pub fn read_proxy_a<A: Accessor<Context = State>>(p: &Proxy<Baz>, access: A) -> (r: i32)
        requires
            has_baz(access.ctx(), *p),
        ensures
            r == baz_at(access.ctx(), *p).a,
    {
        access.get(p).a
    }

    /// The payload of the [`Bar`] linked from the object `p` resolves to.
    pub fn read_proxy_bar_a<A: Accessor<Context = State>>(p: &Proxy<Baz>, access: A) -> (r: i32)
        requires
            has_baz(access.ctx(), *p),
            has_bar(access.ctx(), baz_at(access.ctx(), *p).bar),
        ensures
            r == bar_at(access.ctx(), baz_at(access.ctx(), *p).bar).a,
    {
        access.get(&access.get(p).bar).a
    }

    /// The payload at the end of the link chain starting at the object
    /// `p` resolves to.
    pub fn read_proxy_bar_foo_a<A: Accessor<Context = State>>(p: &Proxy<Baz>, access: A) -> (r:
        i32)
        requires
            has_baz(access.ctx(), *p),
            has_bar(access.ctx(), baz_at(access.ctx(), *p).bar),
            has_foo(access.ctx(), bar_at(access.ctx(), baz_at(access.ctx(), *p).bar).foo),
        ensures
            r == foo_at(access.ctx(), bar_at(access.ctx(), baz_at(access.ctx(), *p).bar).foo).a,
    {
        access.get(&access.get(&access.get(p).bar).foo).a
    }
}

/// The payload held by a [`Foo`].
pub fn foo_read_a(foo: &Foo) -> (r: i32)
    ensures
        r == foo.a,
{
    foo.a
}

/// The payload of the [`Foo`] that `p` resolves to.
pub fn foo_read_proxy_a<A: Accessor<Context = State>>(p: &Proxy<Foo>, access: A) -> (r: i32)
    requires
        has_foo(access.ctx(), *p),
    ensures
        r == foo_at(access.ctx(), *p).a,
{
    access.get(p).a
}

/// The payload held by a [`Bar`].
pub fn bar_read_a(bar: &Bar) -> (r: i32)
    ensures
        r == bar.a,
{
    bar.a
}

/// The payload of the [`Foo`] a [`Bar`] links to.
pub fn bar_read_foo_a<A: Accessor<Context = State>>(bar: &Bar, access: A) -> (r: i32)
    requires
        has_foo(access.ctx(), bar.foo),
    ensures
        r == foo_at(access.ctx(), bar.foo).a,
{
    access.get(&bar.foo).a
}

/// The payload of the [`Bar`] that `p` resolves to.
pub fn bar_read_proxy_a<A: Accessor<Context = State>>(p: &Proxy<Bar>, access: A) -> (r: i32)
    requires
        has_bar(access.ctx(), *p),
    ensures
        r == bar_at(access.ctx(), *p).a,
{
    access.get(p).a
}

/// The payload of the [`Foo`] linked from the [`Bar`] that `p` resolves
/// to.
pub fn bar_read_proxy_foo_a<A: Accessor<Context = State>>(p: &Proxy<Bar>, access: A) -> (r: i32)
    requires
        has_bar(access.ctx(), *p),
        has_foo(access.ctx(), bar_at(access.ctx(), *p).foo),
    ensures
        r == foo_at(access.ctx(), bar_at(access.ctx(), *p).foo).a,
{
    access.get(&access.get(p).foo).a
}

/// The payload held by a [`Baz`].
pub fn baz_read_a(baz: &Baz) -> (r: i32)
    ensures
        r == baz.a,
{
    baz.a
}

/// The payload of the [`Bar`] a [`Baz`] links to.
pub fn baz_read_bar_a<A: Accessor<Context = State>>(baz: &Baz, access: A) -> (r: i32)
    requires
        has_bar(access.ctx(), baz.bar),
    ensures
        r == bar_at(access.ctx(), baz.bar).a,
{
    access.get(&baz.bar).a
}

/// The payload at the end of the link chain starting at a [`Baz`].
pub fn baz_read_bar_foo_a<A: Accessor<Context = State>>(baz: &Baz, access: A) -> (r: i32)
    requires
        has_bar(access.ctx(), baz.bar),
        has_foo(access.ctx(), bar_at(access.ctx(), baz.bar).foo),
    ensures
        r == foo_at(access.ctx(), bar_at(access.ctx(), baz.bar).foo).a,
{
    access.get(&access.get(&baz.bar).foo).a
}

/// The payload of the [`Baz`] that `p` resolves to.
pub fn baz_read_proxy_a<A: Accessor<Context = State>>(p: &Proxy<Baz>, access: A) -> (r: i32)
    requires
        has_baz(access.ctx(), *p),
    ensures
        r == baz_at(access.ctx(), *p).a,
{
    access.get(p).a
}

/// The payload of the [`Bar`] linked from the [`Baz`] that `p` resolves
/// to.
pub fn baz_read_proxy_bar_a<A: Accessor<Context = State>>(p: &Proxy<Baz>, access: A) -> (r: i32)
    requires
        has_baz(access.ctx(), *p),
        has_bar(access.ctx(), baz_at(access.ctx(), *p).bar),
    ensures
        r == bar_at(access.ctx(), baz_at(access.ctx(), *p).bar).a,
{
    access.get(&access.get(p).bar).a
}

/// The payload at the end of the link chain starting at the [`Baz`] that
/// `p` resolves to.
pub fn baz_read_proxy_bar_foo_a<A: Accessor<Context = State>>(p: &Proxy<Baz>, access: A) -> (r:
    i32)
    requires
        has_baz(access.ctx(), *p),
        has_bar(access.ctx(), baz_at(access.ctx(), *p).bar),
        has_foo(access.ctx(), bar_at(access.ctx(), baz_at(access.ctx(), *p).bar).foo),
    ensures
        r == foo_at(access.ctx(), bar_at(access.ctx(), baz_at(access.ctx(), *p).bar).foo).a,
{
    access.get(&access.get(&access.get(p).bar).foo).a
}

} // verus!
