//! Small shared type helpers.

use vstd::prelude::*;

verus! {

/// Read access to the two coordinates of a point-like value.
pub trait TupleCords<T> {
    /// The first coordinate, as a mathematical value.
    spec fn spec_x(&self) -> T;

    /// The second coordinate, as a mathematical value.
    spec fn spec_y(&self) -> T;

    fn x(&self) -> (r: T)
        ensures
            r == self.spec_x(),
    ;

    fn y(&self) -> (r: T)
        ensures
            r == self.spec_y(),
    ;
}

impl<T: Copy> TupleCords<T> for (T, T) {
    open spec fn spec_x(&self) -> T {
        self.0
    }

    open spec fn spec_y(&self) -> T {
        self.1
    }

    fn x(&self) -> (r: T)
        ensures
            r == self.spec_x(),
    {
        self.0
    }

    fn y(&self) -> (r: T)
        ensures
            r == self.spec_y(),
    {
        self.1
    }
}

} // verus!
