use macsmc::IndexCursor;

#[test]
fn forward_yields_every_index_in_order() {
    let mut c = IndexCursor::new(5);
    let mut seen = Vec::new();
    while let Some(i) = c.next() {
        seen.push(i);
    }
    assert_eq!(seen, vec![0, 1, 2, 3, 4]);
    assert_eq!(c.next(), None);
}

#[test]
fn backward_yields_the_reverse() {
    let mut c = IndexCursor::new(5);
    let mut seen = Vec::new();
    while let Some(i) = c.next_back() {
        seen.push(i);
    }
    assert_eq!(seen, vec![4, 3, 2, 1, 0]);
}

#[test]
fn nth_matches_sequential_next() {
    let mut a = IndexCursor::new(10);
    let mut b = IndexCursor::new(10);
    for _ in 0..3 {
        b.next();
    }
    assert_eq!(a.nth(3), b.next());
    assert_eq!(a.next(), b.next());
    assert_eq!(a.size_hint(), b.size_hint());
}

#[test]
fn nth_past_the_end_exhausts() {
    let mut c = IndexCursor::new(3);
    assert_eq!(c.nth(3), None);
    assert_eq!(c.next(), None);
    assert_eq!(c.size_hint(), (0, Some(0)));
}

#[test]
fn both_ends_meet() {
    let mut c = IndexCursor::new(4);
    assert_eq!(c.next(), Some(0));
    assert_eq!(c.next_back(), Some(3));
    assert_eq!(c.nth_back(0), Some(2));
    assert_eq!(c.next(), Some(1));
    assert_eq!(c.next(), None);
    assert_eq!(c.next_back(), None);
}

#[test]
fn nth_back_skips_from_the_end() {
    let mut c = IndexCursor::new(6);
    assert_eq!(c.nth_back(2), Some(3));
    assert_eq!(c.count(), 3);
    let mut d = IndexCursor::new(6);
    assert_eq!(d.nth_back(6), None);
    assert_eq!(d.next(), None);
}

#[test]
fn counts_and_last() {
    let c = IndexCursor::new(7);
    assert_eq!(c.size_hint(), (7, Some(7)));
    assert_eq!(c.count(), 7);
    assert_eq!(c.last(), Some(6));
    assert_eq!(IndexCursor::new(0).last(), None);
    assert_eq!(IndexCursor::new(0).count(), 0);
}
