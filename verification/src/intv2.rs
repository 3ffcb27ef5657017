//! Integer 2-vector used for grid coordinates and fixed-point plane vectors.

use vstd::prelude::*;

verus! {

/// A two-dimensional vector of `i64` components.
#[derive(Clone, Copy, PartialEq, Eq, Structural, Debug, Hash)]
pub struct IntV2(pub i64, pub i64);

impl IntV2 {
    /// Scales both components by `other`.
    pub fn mult(&self, other: i64) -> (r: Self)
        requires
            i64::MIN <= self.0 * other <= i64::MAX,
            i64::MIN <= self.1 * other <= i64::MAX,
        ensures
            r.0 == self.0 * other,
            r.1 == self.1 * other,
    {
        Self(self.0 * other, self.1 * other)
    }

    /// Componentwise sum.
    pub fn add(self, other: IntV2) -> (r: Self)
        requires
            i64::MIN <= self.0 + other.0 <= i64::MAX,
            i64::MIN <= self.1 + other.1 <= i64::MAX,
        ensures
            r.0 == self.0 + other.0,
            r.1 == self.1 + other.1,
    {
        Self(self.0 + other.0, self.1 + other.1)
    }

    /// Componentwise difference.
    pub fn sub(self, other: IntV2) -> (r: Self)
        requires
            i64::MIN <= self.0 - other.0 <= i64::MAX,
            i64::MIN <= self.1 - other.1 <= i64::MAX,
        ensures
            r.0 == self.0 - other.0,
            r.1 == self.1 - other.1,
    {
        Self(self.0 - other.0, self.1 - other.1)
    }

    /// Component by position: 0 is the first component, 1 the second.
    pub fn index(&self, index: usize) -> (r: i64)
        requires
            index < 2,
        ensures
            index == 0 ==> r == self.0,
            index == 1 ==> r == self.1,
    {
        if index == 0 {
            self.0
        } else {
            self.1
        }
    }
}

} // verus!
