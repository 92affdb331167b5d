use persian_rug::{
    Accessor, Bar, Baz, Context, Foo, Foo2, Mutator, Proxy, ProxySet, State, Table,
};
use std::sync::Arc;

/// The handle returned by the Nth insertion carries index N-1, so
/// ascending handle order is insertion order, and iteration follows it.
#[test]
fn test_insertion_order() {
    let mut t = Table::new();
    let mut issued: Vec<Proxy<Foo2>> = Vec::new();
    for n in 0..100 {
        issued.push(t.push(Foo2 { a: n }));
    }

    let mut proxies: Vec<Proxy<Foo2>> = Vec::new();
    let mut it = t.iter_proxies();
    while let Some(p) = it.next() {
        proxies.push(p);
    }
    assert_eq!(proxies.len(), issued.len());
    for n in 0..issued.len() {
        assert!(proxies[n] == issued[n]);
        if n > 0 {
            assert!(proxies[n - 1] < proxies[n]);
        }
    }

    let mut values: Vec<i32> = Vec::new();
    let mut it = t.iter();
    while let Some(f) = it.next() {
        values.push(f.a);
    }
    for n in 0..100 {
        assert_eq!(values[n as usize], n);
    }
}

/// A resolved value is stable under further insertions of unrelated
/// objects and handles.
#[test]
fn test_resolution_stability() {
    let mut s = State { foo: Table::new(), bar: Table::new(), baz: Table::new() };
    let f1 = s.add(Foo { a: 41 });
    for n in 0..50 {
        s.add(Foo { a: n });
        s.add(Bar { a: n, foo: f1 });
    }
    assert_eq!(s.get(&f1).a, 41);
}

/// A handle whose index was never issued by a table is reported absent,
/// never resolved to a wrong value.
#[test]
fn test_absence() {
    let mut small = Table::new();
    let mut large = Table::new();
    small.push(Foo2 { a: 1 });
    for n in 0..5 {
        large.push(Foo2 { a: n });
    }
    let mut it = large.iter_proxies();
    let mut seen = 0;
    while let Some(p) = it.next() {
        if seen == 0 {
            // An index the small table also issued resolves there.
            assert!(small.get(&p).is_some());
        } else {
            // Indices the small table never issued are reported absent.
            assert!(small.get(&p).is_none());
        }
        seen += 1;
    }
    assert_eq!(seen, 5);
}

/// Mutation through get_mut is visible to subsequent reads and to
/// iteration.
#[test]
fn test_read_after_write() {
    let mut t = Table::new();
    let f1 = t.push(Foo2 { a: 1 });
    let f2 = t.push(Foo2 { a: 2 });
    if let Some(f) = t.get_mut(&f1) {
        f.a = 10;
    }
    assert_eq!(t.get(&f1).map(|f| f.a), Some(10));
    assert_eq!(t.get(&f2).map(|f| f.a), Some(2));
    let mut values: Vec<i32> = Vec::new();
    let mut it = t.iter();
    while let Some(f) = it.next() {
        values.push(f.a);
    }
    assert_eq!(values, vec![10, 2]);
}

/// A mutator wrapping a context is behaviorally transparent: the same
/// operation sequence gives the same results as on the context itself.
#[test]
fn test_transparency() {
    let mut direct = State { foo: Table::new(), bar: Table::new(), baz: Table::new() };
    let mut wrapped = State { foo: Table::new(), bar: Table::new(), baz: Table::new() };
    let m = &mut wrapped;

    let df = direct.add(Foo { a: 1 });
    let mf = m.add(Foo { a: 1 });
    assert!(df == mf);
    let db = direct.add(Bar { a: 2, foo: df });
    let mb = m.add(Bar { a: 2, foo: mf });
    assert!(db == mb);

    direct.get_mut(&df).a = 7;
    m.get_mut(&mf).a = 7;

    assert_eq!(direct.get(&df).a, m.get(&mf).a);
    assert_eq!(direct.get(&db).a, m.get(&mb).a);
    assert!(direct.get(&db).foo == m.get(&mb).foo);
}

/// Build a small graph, relink one edge to a fresh object, and check
/// that the new path resolves while the untouched objects keep their
/// values.
#[test]
fn test_relink() {
    let mut s = State { foo: Table::new(), bar: Table::new(), baz: Table::new() };

    let a = s.add(Foo { a: 0 });
    let b = s.add(Bar { a: 1, foo: a });
    let c = s.add(Baz { a: 2, bar: b });

    assert_eq!(s.get(&s.get(&c).bar).a, 1);
    assert_eq!(s.get(&s.get(&s.get(&c).bar).foo).a, 0);

    let d = s.add(Bar { a: 3, foo: a });
    s.get_mut(&c).bar = d;

    // The relinked path resolves to the new object.
    assert_eq!(s.get(&c).a, 2);
    assert_eq!(s.get(&s.get(&c).bar).a, 3);
    // The old objects are unaffected.
    assert_eq!(s.get(&a).a, 0);
    assert_eq!(s.get(&b).a, 1);
    assert!(s.get(&b).foo == a);
}

/// Membership after a run of insertions, duplicates included, is
/// exactly "inserted at least once".
#[test]
fn test_membership_run() {
    let mut t = Table::new();
    let f = (0..8).map(|n| t.push(Foo2 { a: n })).collect::<Vec<_>>();
    let mut ps = ProxySet::new();
    ps.insert(f[1]);
    ps.insert(f[3]);
    ps.insert(f[1]);
    ps.insert(f[6]);
    for (k, p) in f.iter().enumerate() {
        assert_eq!(ps.contains(p), k == 1 || k == 3 || k == 6);
    }
    let mut ids: Vec<Proxy<Foo2>> = Vec::new();
    let mut it = ps.iter();
    while let Some(p) = it.next() {
        ids.push(p);
    }
    assert_eq!(ids.len(), 3);
    assert!(ids[0] == f[1]);
    assert!(ids[1] == f[3]);
    assert!(ids[2] == f[6]);

    let els = ps.elements();
    assert_eq!(els.len(), 3);
    assert!(els[0] == f[1]);
    assert!(els[1] == f[3]);
    assert!(els[2] == f[6]);
}

/// A shared-ownership handle to a context is a read capability, and
/// reads through it agree with reads from the context itself.
#[test]
fn test_arc_accessor() {
    let mut s = State { foo: Table::new(), bar: Table::new(), baz: Table::new() };
    let f1 = s.add(Foo { a: 5 });
    let b1 = s.add(Bar { a: 6, foo: f1 });

    let shared = Arc::new(s);
    assert_eq!(shared.get(&f1).a, 5);
    assert_eq!(shared.get(&b1).a, 6);
    assert_eq!(Foo::read_proxy_a(&f1, shared.clone()), 5);
    assert_eq!(Bar::read_proxy_foo_a(&b1, shared.clone()), 5);

    let mut proxies: Vec<Proxy<Foo>> = Vec::new();
    let mut it = shared.get_proxy_iter::<Foo>();
    while let Some(p) = it.next() {
        proxies.push(p);
    }
    assert_eq!(proxies.len(), 1);
    assert!(proxies[0] == f1);
}

/// Sets start empty, however they are made.
#[test]
fn test_empty_set() {
    let mut t = Table::new();
    let f0 = t.push(Foo2 { a: 0 });
    let ps: ProxySet<Foo2> = Default::default();
    assert!(!ps.contains(&f0));
    let mut it = ps.iter();
    assert!(it.next().is_none());
    assert!(ps.elements().is_empty());
}
