//! Interval utilities.
//!
//! The traits describe what the rest of the crate wants from an interval:
//! membership tests, widening and union, and a midpoint. `Span` is the
//! crate's own half-open-friendly interval of pixel indices; the tile
//! scheduler uses one per axis of a tile.

use vstd::prelude::*;

verus! {

/// Membership of a value in an interval, with both boundary conventions.
pub trait Membership<T> {
    /// Whether `value` lies in the interval, endpoints included.
    spec fn spec_inclusive(&self, value: T) -> bool;

    /// Whether `value` lies in the interval, endpoints excluded.
    spec fn spec_exclusive(&self, value: T) -> bool;

    /// Checks if `value` is in the interval, inclusive.
    fn inclusive(&self, value: T) -> (r: bool)
        ensures
            r == self.spec_inclusive(value),
    ;

    /// Checks if `value` is in the interval, exclusive.
    fn exclusive(&self, value: T) -> (r: bool)
        ensures
            r == self.spec_exclusive(value),
    ;
}

/// Growing an interval: widening by a margin, and union with another.
pub trait Expandable<T>: Sized {
    /// Whether widening by `value` stays within the value type's range.
    spec fn can_expand(&self, value: T) -> bool;

    /// The interval widened by `value`, half on each side.
    spec fn spec_expand(&self, value: T) -> Self;

    /// The smallest interval containing both operands.
    spec fn spec_union(&self, other: &Self) -> Self;

    /// Widens the interval by `value`, half on each side.
    fn expand(&self, value: T) -> (r: Self)
        requires
            self.can_expand(value),
        ensures
            r == self.spec_expand(value),
    ;

    /// Returns the smallest interval containing both operands.
    fn union(&self, other: &Self) -> (r: Self)
        ensures
            r == self.spec_union(other),
    ;
}

/// Derived interval measures.
pub trait RangeExtensions<T> {
    /// Whether the midpoint can be computed without leaving the value
    /// type's range.
    spec fn has_middle(&self) -> bool;

    /// The midpoint of the interval's endpoints.
    spec fn spec_middle(&self) -> T;

    /// Returns the midpoint of the interval's endpoints.
    fn middle(&self) -> (r: T)
        requires
            self.has_middle(),
        ensures
            r == self.spec_middle(),
    ;
}

/// An interval of pixel indices, `start` through `end`.
#[derive(Clone, Copy, Debug, PartialEq, Eq, Structural)]
pub struct Span {
    pub start: usize,
    pub end: usize,
}

impl Span {
    /// The interval from `start` through `end`.
    pub fn new(start: usize, end: usize) -> (r: Span)
        ensures
            r == (Span { start, end }),
    {
        Span { start, end }
    }

    /// How many indices the half-open reading `[start, end)` covers.
    pub open spec fn spec_len(&self) -> int {
        self.end - self.start
    }

    /// The number of indices in `[start, end)`.
    pub fn len(&self) -> (r: usize)
        requires
            self.start <= self.end,
        ensures
            r == self.spec_len(),
    {
        self.end - self.start
    }
}

impl Membership<usize> for Span {
    open spec fn spec_inclusive(&self, value: usize) -> bool {
        self.start <= value <= self.end
    }

    open spec fn spec_exclusive(&self, value: usize) -> bool {
        self.start < value < self.end
    }

    fn inclusive(&self, value: usize) -> (r: bool) {
        self.start <= value && value <= self.end
    }

    fn exclusive(&self, value: usize) -> (r: bool) {
        self.start < value && value < self.end
    }
}

impl Expandable<usize> for Span {
    open spec fn can_expand(&self, value: usize) -> bool {
        value / 2 <= self.start && self.end + value / 2 <= usize::MAX
    }

    open spec fn spec_expand(&self, value: usize) -> Span {
        Span {
            start: (self.start - value / 2) as usize,
            end: (self.end + value / 2) as usize,
        }
    }

    open spec fn spec_union(&self, other: &Span) -> Span {
        Span {
            start: if self.start <= other.start {
                self.start
            } else {
                other.start
            },
            end: if self.end >= other.end {
                self.end
            } else {
                other.end
            },
        }
    }

    fn expand(&self, value: usize) -> (r: Span) {
        let padding = value / 2;
        Span { start: self.start - padding, end: self.end + padding }
    }

    fn union(&self, other: &Span) -> (r: Span) {
        Span {
            start: if self.start <= other.start {
                self.start
            } else {
                other.start
            },
            end: if self.end >= other.end {
                self.end
            } else {
                other.end
            },
        }
    }
}

impl RangeExtensions<usize> for Span {
    open spec fn has_middle(&self) -> bool {
        self.start + self.end <= usize::MAX
    }

    open spec fn spec_middle(&self) -> usize {
        ((self.start + self.end) / 2) as usize
    }

    fn middle(&self) -> (r: usize) {
        (self.start + self.end) / 2
    }
}

} // verus!
