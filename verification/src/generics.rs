//! Types and functions that work for every element type.

use vstd::prelude::*;
use vstd::std_specs::cmp::PartialOrdIs;
use vstd::std_specs::cmp::PartialOrdSpec;

verus! {

/// A point whose coordinates share one type.
#[derive(Debug)]
pub struct Point<T> {
    pub x: T,
    pub y: T,
}

impl<T> Point<T> {
    /// The first coordinate.
    pub fn x(&self) -> (x: &T)
        ensures
            *x == self.x,
    {
        &self.x
    }

    /// The second coordinate.
    pub fn y(&self) -> (y: &T)
        ensures
            *y == self.y,
    {
        &self.y
    }
}

/// A point whose coordinates may differ in type.
#[derive(Debug)]
pub struct Point2<T, U> {
    pub x: T,
    pub y: U,
}

impl<T, U> Point2<T, U> {
    /// The point with this point's `x` and the other point's `y`.
    pub fn mixup<V, W>(self, other: Point2<V, W>) -> (mixed: Point2<T, W>)
        ensures
            mixed.x == self.x,
            mixed.y == other.y,
    {
        Point2 { x: self.x, y: other.y }
    }
}

/// What a scan from left to right holds at the end when it keeps the first
/// element and replaces it by each later one that is greater.
pub open spec fn largest_of<T: PartialOrd>(s: Seq<T>) -> T
    recommends
        s.len() > 0,
    decreases s.len(),
{
    if s.len() <= 1 {
        s[0]
    } else {
        let kept = largest_of(s.drop_last());
        if s.last().is_gt(&kept) {
            s.last()
        } else {
            kept
        }
    }
}

/// The largest element of a non-empty slice. Of elements that compare as
/// equal, the leftmost is returned.
pub fn largest<T: PartialOrd + Copy>(list: &[T]) -> (r: T)
    requires
        list@.len() > 0,
    ensures
        list@.contains(r),
        T::obeys_partial_cmp_spec() ==> r == largest_of(list@),
{
    let mut largest = list[0];
    let mut i: usize = 1;
    let ghost mut seen: int = 1;
    assert(list@.take(1).drop_last() =~= list@.take(0));
    while i < list.len()
        invariant
            seen == i,
            1 <= seen <= list@.len(),
            list@.contains(largest),
            T::obeys_partial_cmp_spec() ==> largest == largest_of(list@.take(seen)),
        decreases list@.len() - seen,
    {
        let item = list[i];
        proof {
            assert(list@.take(seen + 1).drop_last() =~= list@.take(seen));
            assert(list@.take(seen + 1).last() == list@[seen]);
        }
        if item > largest {
            largest = item;
        }
        i += 1;
        proof {
            seen = seen + 1;
        }
    }
    assert(list@.take(seen) =~= list@);
    largest
}

/// On whole numbers the scan ends on an element that no other exceeds.
pub proof fn lemma_largest_of_is_maximum(s: Seq<i32>)
    requires
        s.len() > 0,
    ensures
        s.contains(largest_of(s)),
        forall|i: int| 0 <= i < s.len() ==> #[trigger] s[i] <= largest_of(s),
    decreases s.len(),
{
    if s.len() > 1 {
        let front = s.drop_last();
        lemma_largest_of_is_maximum(front);
        let kept = largest_of(front);
        let k = choose|k: int| 0 <= k < front.len() && front[k] == kept;
        assert(s[k] == kept);
        assert forall|i: int| 0 <= i < s.len() implies #[trigger] s[i] <= largest_of(s) by {
            if i < s.len() - 1 {
                assert(front[i] == s[i]);
            }
        }
    }
}

/// A box around one value.
#[derive(Debug)]
pub struct Container<T> {
    pub value: T,
}

impl<T> Container<T> {
    /// Wraps a value.
    pub fn new(value: T) -> (c: Container<T>)
        ensures
            c.value == value,
    {
        Container { value }
    }

    /// The wrapped value.
    pub fn get_value(&self) -> (value: &T)
        ensures
            *value == self.value,
    {
        &self.value
    }
}

/// Applies `f` to `value` once.
pub fn apply_operation<F, T>(f: F, value: T) -> (r: T) where F: Fn(T) -> T
    requires
        call_requires(f, (value,)),
    ensures
        call_ensures(f, (value,), r),
{
    f(value)
}

/// A pointer-like wrapper that owns its value.
pub struct MyBox<T>(pub T);

impl<T> MyBox<T> {
    /// Wraps a value.
    pub fn new(x: T) -> (b: MyBox<T>)
        ensures
            b.0 == x,
    {
        MyBox(x)
    }

}

impl<T> std::ops::Deref for MyBox<T> {
    type Target = T;

    /// A reference to the wrapped value.
    fn deref(&self) -> (inner: &T)
        ensures
            *inner == self.0,
    {
        &self.0
    }
}

} // verus!
