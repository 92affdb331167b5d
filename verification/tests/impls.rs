use persian_rug::{Bar, Baz, Context, Foo, State, Table};

#[test]
fn test_impls() {
    let mut s = State { foo: Table::new(), bar: Table::new(), baz: Table::new() };

    let f1 = s.add(Foo { a: 1 });
    let b1 = s.add(Bar { a: 2, foo: f1 });
    let z1 = s.add(Baz { a: 3, bar: b1 });

    assert_eq!(s.get(&f1).read_a(), 1);
    assert_eq!(Foo::read_proxy_a(&f1, &s), 1);

    assert_eq!(s.get(&b1).read_a(), 2);
    assert_eq!(s.get(&b1).read_foo_a(&s), 1);
    assert_eq!(Bar::read_proxy_a(&b1, &s), 2);
    assert_eq!(Bar::read_proxy_foo_a(&b1, &s), 1);

    assert_eq!(s.get(&z1).read_a(), 3);
    assert_eq!(s.get(&z1).read_bar_a(&s), 2);
    assert_eq!(s.get(&z1).read_bar_foo_a(&s), 1);
    assert_eq!(Baz::read_proxy_a(&z1, &s), 3);
    assert_eq!(Baz::read_proxy_bar_a(&z1, &s), 2);
    assert_eq!(Baz::read_proxy_bar_foo_a(&z1, &s), 1);
}
