//! A point whose two coordinates may be of different types.

use vstd::prelude::*;

verus! {

/// A pair of coordinates. The coordinate types are independent, so a point
/// may mix, say, an integer with a nested point.
pub struct Point<T1, T2> {
    x: T1,
    _y: T2,
}

impl<T1, T2> View for Point<T1, T2> {
    type V = (T1, T2);

    closed spec fn view(&self) -> (T1, T2) {
        (self.x, self._y)
    }
}

impl<T1, T2> Point<T1, T2> {
    /// The point with the given coordinates.
    pub fn new(x: T1, y: T2) -> (p: Self)
        ensures
            p@ == (x, y),
    {
        Point { x, _y: y }
    }

    /// The first coordinate.
    pub fn x(&self) -> (r: &T1)
        ensures
            *r == self@.0,
    {
        &self.x
    }

    /// The second coordinate.
    pub fn y(&self) -> (r: &T2)
        ensures
            *r == self@.1,
    {
        &self._y
    }
}

impl<T1: Clone, T2: Clone> Point<T1, T2> {
    /// A new point that takes a copy of this point's first coordinate and a
    /// copy of the other point's second coordinate. Neither point is consumed.
    pub fn mixup<X2: Clone, Y2: Clone>(&self, other: &Point<X2, Y2>) -> (r: Point<T1, Y2>)
        ensures
            cloned(self@.0, r@.0),
            cloned(other@.1, r@.1),
    {
        Point { x: self.x.clone(), _y: other._y.clone() }
    }
}

} // verus!
