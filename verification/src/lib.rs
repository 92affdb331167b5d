//! A substrate for arbitrary graphs of mutable objects that link to one
//! another, held inside a single owning aggregate.
//!
//! Objects are stored in per-type [`Table`]s inside a [`Context`]; links
//! between objects are opaque [`Proxy`] handles, which the context
//! resolves back into references on demand.  Read access is abstracted
//! by [`Accessor`] and read-write access by [`Mutator`], so algorithms
//! can be written once against "any capability" rather than a concrete
//! holder.  [`ProxySet`] tracks large collections of handles compactly.
//!
//! Each public operation carries its full functional contract, stated
//! over the tables' views; the lemmas alongside them record the
//! stability, read-after-write and set-membership laws the structure
//! obeys.  The per-type storage and dispatch bindings a schema compiler
//! would emit are written out as ordinary source, in worked example
//! contexts of several shapes.

mod access;
mod demo;
mod demo2;
mod demo3;
mod demo4;
mod proxy;
mod proxy_set;
mod table;

pub use access::{Accessor, Context, Contextual, Mutator, Owner};
pub use demo::{
    bar_at, bar_read_a, bar_read_foo_a, bar_read_proxy_a, bar_read_proxy_foo_a, baz_at,
    baz_read_a, baz_read_bar_a, baz_read_bar_foo_a, baz_read_proxy_a, baz_read_proxy_bar_a,
    baz_read_proxy_bar_foo_a, foo_at, foo_read_a, foo_read_proxy_a, has_bar, has_baz, has_foo,
    state_bars, state_bazs, state_foos, Bar, Baz, Foo, State,
};
pub use demo2::{Bar2, Baz2, Foo2, State2};
pub use demo3::{Bar3b, Bar3c, Baz3c, Foo3a, Foo3b, Foo3c, State3a, State3b, State3c};
pub use demo4::{Bar4b, Bar4c, Baz4c, Foo4a, Foo4b, Foo4c, State4a, State4b, State4c};
pub use proxy::Proxy;
pub use proxy_set::{
    ascending, inserted_ids, lemma_ascending_run_unique, lemma_membership_after_run, ProxySet,
    ProxySetIterator,
};
pub use table::{
    lemma_read_after_write, lemma_resolution_stable_under_push, Table, TableIterator,
    TableMutIterator, TableProxyIterator,
};
