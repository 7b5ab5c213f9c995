use raytracer::span::{Expandable, Membership, RangeExtensions, Span};

#[test]
fn membership_inclusive_holds_endpoints() {
    let s = Span::new(2, 5);
    assert!(s.inclusive(2));
    assert!(s.inclusive(3));
    assert!(s.inclusive(5));
    assert!(!s.inclusive(1));
    assert!(!s.inclusive(6));
}

#[test]
fn membership_exclusive_drops_endpoints() {
    let s = Span::new(2, 5);
    assert!(!s.exclusive(2));
    assert!(s.exclusive(3));
    assert!(s.exclusive(4));
    assert!(!s.exclusive(5));
}

#[test]
fn expand_pads_both_sides() {
    let s = Span::new(10, 20);
    assert_eq!(s.expand(6), Span::new(7, 23));
    assert_eq!(s.expand(5), Span::new(8, 22));
    assert_eq!(s.expand(0), Span::new(10, 20));
}

#[test]
fn union_takes_outermost_endpoints() {
    let a = Span::new(3, 8);
    let b = Span::new(5, 12);
    assert_eq!(a.union(&b), Span::new(3, 12));
    assert_eq!(b.union(&a), Span::new(3, 12));
    let inner = Span::new(4, 6);
    assert_eq!(a.union(&inner), a);
}

#[test]
fn middle_is_midpoint() {
    assert_eq!(Span::new(2, 8).middle(), 5);
    assert_eq!(Span::new(2, 9).middle(), 5);
    assert_eq!(Span::new(0, 0).middle(), 0);
}

#[test]
fn span_len_counts_half_open() {
    assert_eq!(Span::new(3, 8).len(), 5);
    assert_eq!(Span::new(4, 4).len(), 0);
}
