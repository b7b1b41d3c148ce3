use vstd::prelude::*;
use vstd::std_specs::cmp::PartialOrdSpec;

verus! {

/// A point in the plane with both coordinates of one type.
#[derive(Debug)]
pub struct Point<T> {
    pub x: T,
    pub y: T,
}

impl<T> Point<T> {
    /// The first coordinate.
    pub fn x(&self) -> (r: &T)
        ensures
            *r == self.x,
    {
        &self.x
    }
}

/// The item kept by scanning `s` from the left and replacing the current
/// choice with each item that compares greater than it.
pub open spec fn scan_largest<T: PartialOrd>(s: Seq<T>) -> T
    recommends
        s.len() > 0,
    decreases s.len(),
{
    if s.len() <= 1 {
        s[0]
    } else {
        let prev = scan_largest(s.drop_last());
        if s.last().partial_cmp_spec(&prev) == Some(core::cmp::Ordering::Greater) {
            s.last()
        } else {
            prev
        }
    }
}

/// The largest item of a non-empty slice; of items that compare equal, or
/// that do not compare, the earliest one kept by the scan. Where the order of
/// `T` has no specification in vstd, the result is still one of the items.
pub fn largest<T: PartialOrd>(list: &[T]) -> (r: &T)
    requires
        list@.len() > 0,
    ensures
        T::obeys_partial_cmp_spec() ==> *r == scan_largest(list@),
        list@.contains(*r),
{
    let mut largest = &list[0];
    let mut i: usize = 1;
    proof {
        assert(list@.take(1).len() == 1);
    }
    while i < list.len()
        invariant
            1 <= i <= list@.len(),
            T::obeys_partial_cmp_spec() ==> *largest == scan_largest(list@.take(i as int)),
            list@.contains(*largest),
        decreases list@.len() - i,
    {
        let item = &list[i];
        assert(list@.take(i + 1).drop_last() =~= list@.take(i as int));
        if item > largest {
            largest = item;
        }
        i = i + 1;
    }
    assert(list@.take(i as int) =~= list@);
    largest
}

} // verus!
