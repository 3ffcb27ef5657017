//! The wind as the integrators consume it.
//!
//! The pseudo-random generator that produces the per-tick wind is a
//! collaborator outside this crate; the simulation core only reads the
//! instantaneous wind vector it is handed.

use vstd::prelude::*;
use crate::intv2::IntV2;

verus! {

/// Instantaneous wind vector, in fixed-point units.
pub type Wind = IntV2;

} // verus!
