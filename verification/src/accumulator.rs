//! The absolute position, accumulated from relative motion and held within
//! its bounds.

use vstd::prelude::*;
use crate::model::clamp;

verus! {

/// The current absolute position and the bounds it is clamped to.
pub struct CoordinateAccumulator {
    max_x: u32,
    max_y: u32,
    abs_x: u32,
    abs_y: u32,
}

impl CoordinateAccumulator {
    /// The horizontal position.
    pub closed spec fn spec_x(self) -> int {
        self.abs_x as int
    }

    /// The vertical position.
    pub closed spec fn spec_y(self) -> int {
        self.abs_y as int
    }

    /// The largest horizontal position.
    pub closed spec fn spec_max_x(self) -> int {
        self.max_x as int
    }

    /// The largest vertical position.
    pub closed spec fn spec_max_y(self) -> int {
        self.max_y as int
    }

    /// The position lies within the bounds. This holds of every accumulator.
    #[verifier::type_invariant]
    pub open spec fn within_bounds(self) -> bool {
        &&& 0 <= self.spec_x() <= self.spec_max_x()
        &&& 0 <= self.spec_y() <= self.spec_max_y()
    }

    /// The origin, within the given bounds.
    pub fn new(max_x: u32, max_y: u32) -> (acc: CoordinateAccumulator)
        ensures
            acc.spec_x() == 0,
            acc.spec_y() == 0,
            acc.spec_max_x() == max_x,
            acc.spec_max_y() == max_y,
    {
        CoordinateAccumulator { max_x, max_y, abs_x: 0, abs_y: 0 }
    }

    /// The horizontal position, which never exceeds its bound.
    pub fn x(&self) -> (x: u32)
        ensures
            x == self.spec_x(),
            x <= self.spec_max_x(),
    {
        proof {
            use_type_invariant(self);
        }
        self.abs_x
    }

    /// The vertical position, which never exceeds its bound.
    pub fn y(&self) -> (y: u32)
        ensures
            y == self.spec_y(),
            y <= self.spec_max_y(),
    {
        proof {
            use_type_invariant(self);
        }
        self.abs_y
    }

    /// The largest horizontal position.
    pub fn max_x(&self) -> (max_x: u32)
        ensures
            max_x == self.spec_max_x(),
    {
        self.max_x
    }

    /// The largest vertical position.
    pub fn max_y(&self) -> (max_y: u32)
        ensures
            max_y == self.spec_max_y(),
    {
        self.max_y
    }

    /// Adds `delta` to the horizontal position and clamps the sum: below 0 it
    /// becomes 0, above the bound it becomes the bound.
    pub fn add_x(&mut self, delta: i32)
        ensures
            final(self).spec_x() == clamp(old(self).spec_x() + delta, old(self).spec_max_x()),
            0 <= final(self).spec_x() <= final(self).spec_max_x(),
            0 <= final(self).spec_y() <= final(self).spec_max_y(),
            final(self).spec_y() == old(self).spec_y(),
            final(self).spec_max_x() == old(self).spec_max_x(),
            final(self).spec_max_y() == old(self).spec_max_y(),
    {
        proof {
            use_type_invariant(&*self);
        }
        let sum: i64 = self.abs_x as i64 + delta as i64;
        if sum < 0 {
            self.abs_x = 0;
        } else if sum > self.max_x as i64 {
            self.abs_x = self.max_x;
        } else {
            self.abs_x = sum as u32;
        }
    }

    /// Adds `delta` to the vertical position and clamps the sum: below 0 it
    /// becomes 0, above the bound it becomes the bound.
    pub fn add_y(&mut self, delta: i32)
        ensures
            final(self).spec_y() == clamp(old(self).spec_y() + delta, old(self).spec_max_y()),
            0 <= final(self).spec_x() <= final(self).spec_max_x(),
            0 <= final(self).spec_y() <= final(self).spec_max_y(),
            final(self).spec_x() == old(self).spec_x(),
            final(self).spec_max_x() == old(self).spec_max_x(),
            final(self).spec_max_y() == old(self).spec_max_y(),
    {
        proof {
            use_type_invariant(&*self);
        }
        let sum: i64 = self.abs_y as i64 + delta as i64;
        if sum < 0 {
            self.abs_y = 0;
        } else if sum > self.max_y as i64 {
            self.abs_y = self.max_y;
        } else {
            self.abs_y = sum as u32;
        }
    }
}

} // verus!
