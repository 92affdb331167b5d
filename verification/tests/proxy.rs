use persian_rug::{Context, Foo2, State2, Table};
use std::cmp::Ordering;

#[test]
fn test_ord() {
    let mut s = State2(Table::new(), Table::new(), Table::new());

    let f1 = s.add(Foo2 { a: 0 });
    let f2 = s.add(Foo2 { a: 0 });
    let f3 = s.add(Foo2 { a: 0 });
    let f4 = s.add(Foo2 { a: 0 });

    assert_eq!(f1.cmp(&f1), Ordering::Equal);
    assert_eq!(f1.cmp(&f2), Ordering::Less);
    assert_eq!(f1.cmp(&f3), Ordering::Less);
    assert_eq!(f1.cmp(&f4), Ordering::Less);
    assert_eq!(f2.cmp(&f1), Ordering::Greater);
    assert_eq!(f2.cmp(&f2), Ordering::Equal);
    assert_eq!(f2.cmp(&f3), Ordering::Less);
    assert_eq!(f2.cmp(&f4), Ordering::Less);
    assert_eq!(f3.cmp(&f1), Ordering::Greater);
    assert_eq!(f3.cmp(&f2), Ordering::Greater);
    assert_eq!(f3.cmp(&f3), Ordering::Equal);
    assert_eq!(f3.cmp(&f4), Ordering::Less);
    assert_eq!(f4.cmp(&f1), Ordering::Greater);
    assert_eq!(f4.cmp(&f2), Ordering::Greater);
    assert_eq!(f4.cmp(&f3), Ordering::Greater);
    assert_eq!(f4.cmp(&f4), Ordering::Equal);
}

#[test]
fn test_partial_ord() {
    let mut s = State2(Table::new(), Table::new(), Table::new());

    let f1 = s.add(Foo2 { a: 0 });
    let f2 = s.add(Foo2 { a: 0 });
    let f3 = s.add(Foo2 { a: 0 });
    let f4 = s.add(Foo2 { a: 0 });

    assert_eq!(f1.partial_cmp(&f1), Some(Ordering::Equal));
    assert_eq!(f1.partial_cmp(&f2), Some(Ordering::Less));
    assert_eq!(f1.partial_cmp(&f3), Some(Ordering::Less));
    assert_eq!(f1.partial_cmp(&f4), Some(Ordering::Less));
    assert_eq!(f2.partial_cmp(&f1), Some(Ordering::Greater));
    assert_eq!(f2.partial_cmp(&f2), Some(Ordering::Equal));
    assert_eq!(f2.partial_cmp(&f3), Some(Ordering::Less));
    assert_eq!(f2.partial_cmp(&f4), Some(Ordering::Less));
    assert_eq!(f3.partial_cmp(&f1), Some(Ordering::Greater));
    assert_eq!(f3.partial_cmp(&f2), Some(Ordering::Greater));
    assert_eq!(f3.partial_cmp(&f3), Some(Ordering::Equal));
    assert_eq!(f3.partial_cmp(&f4), Some(Ordering::Less));
    assert_eq!(f4.partial_cmp(&f1), Some(Ordering::Greater));
    assert_eq!(f4.partial_cmp(&f2), Some(Ordering::Greater));
    assert_eq!(f4.partial_cmp(&f3), Some(Ordering::Greater));
    assert_eq!(f4.partial_cmp(&f4), Some(Ordering::Equal));
}

#[test]
fn test_eq() {
    let mut s = State2(Table::new(), Table::new(), Table::new());

    let f1 = s.add(Foo2 { a: 0 });
    let f2 = s.add(Foo2 { a: 0 });
    let f3 = s.add(Foo2 { a: 0 });
    let f4 = s.add(Foo2 { a: 0 });

    assert_eq!(f1.eq(&f1), true);
    assert_eq!(f1.eq(&f2), false);
    assert_eq!(f1.eq(&f3), false);
    assert_eq!(f1.eq(&f4), false);
    assert_eq!(f2.eq(&f1), false);
    assert_eq!(f2.eq(&f2), true);
    assert_eq!(f2.eq(&f3), false);
    assert_eq!(f2.eq(&f4), false);
    assert_eq!(f3.eq(&f1), false);
    assert_eq!(f3.eq(&f2), false);
    assert_eq!(f3.eq(&f3), true);
    assert_eq!(f3.eq(&f4), false);
    assert_eq!(f4.eq(&f1), false);
    assert_eq!(f4.eq(&f2), false);
    assert_eq!(f4.eq(&f3), false);
    assert_eq!(f4.eq(&f4), true);
}
