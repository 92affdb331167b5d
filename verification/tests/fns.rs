use persian_rug::{
    bar_read_a, bar_read_foo_a, bar_read_proxy_a, bar_read_proxy_foo_a, baz_read_a,
    baz_read_bar_a, baz_read_bar_foo_a, baz_read_proxy_a, baz_read_proxy_bar_a,
    baz_read_proxy_bar_foo_a, foo_read_a, foo_read_proxy_a, Bar, Baz, Context, Foo, State, Table,
};

#[test]
fn test_fns() {
    let mut s = State { foo: Table::new(), bar: Table::new(), baz: Table::new() };

    let f1 = s.add(Foo { a: 1 });
    let b1 = s.add(Bar { a: 2, foo: f1 });
    let z1 = s.add(Baz { a: 3, bar: b1 });

    assert_eq!(foo_read_a(s.get(&f1)), 1);
    assert_eq!(foo_read_proxy_a(&f1, &s), 1);

    assert_eq!(bar_read_a(s.get(&b1)), 2);
    assert_eq!(bar_read_foo_a(s.get(&b1), &s), 1);
    assert_eq!(bar_read_proxy_a(&b1, &s), 2);
    assert_eq!(bar_read_proxy_foo_a(&b1, &s), 1);

    assert_eq!(baz_read_a(s.get(&z1)), 3);
    assert_eq!(baz_read_bar_a(s.get(&z1), &s), 2);
    assert_eq!(baz_read_bar_foo_a(s.get(&z1), &s), 1);
    assert_eq!(baz_read_proxy_a(&z1, &s), 3);
    assert_eq!(baz_read_proxy_bar_a(&z1, &s), 2);
    assert_eq!(baz_read_proxy_bar_foo_a(&z1, &s), 1);
}
