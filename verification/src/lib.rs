//! Simulation kernel of a multiplayer physics-based sailing game.
//!
//! The core of the crate is a generic entity-addressing framework
//! ([`generic_ref`]) that lets every subsystem refer to sub-objects (sails,
//! boats, landmasses) stably without holding live references, and a two-phase
//! numerical integration and state-reconciliation scheme
//! ([`simulation::physical_integrator`]) that advances physical state forward
//! in time and merges two independently evolved estimates of the same entity
//! into one.
//!
//! All physical scalars (angles, velocities, hit-points, time deltas) are
//! held as fixed-point `i64` values; the unit scale is chosen by the caller
//! and is uniform across a simulation.

pub mod generic_ref;
pub mod intv2;
pub mod simulation;
pub mod resource_interface;

use vstd::prelude::*;
use vstd::string::StringExecFns;
use crate::intv2::IntV2;

verus! {

/// Name of this app.
pub const APP_NAME: &'static str = "Virtual Bike";

/// Magnitude bound that every well-formed physical scalar stays within.
/// Keeping scalars well inside the `i64` range lets sums and products of a
/// step stay exact.
pub const SCALAR_LIMIT: i64 = 0x2000_0000_0000_0000;

/// Arithmetic mean of two scalars, rounding down.
pub open spec fn spec_avg(a: int, b: int) -> int {
    (a + b) / 2
}

/// The mean of two scalars does not depend on their order.
pub proof fn lemma_scalar_average_commutative(a: int, b: int)
    ensures
        spec_avg(a, b) == spec_avg(b, a),
{
}

/// The mean of a scalar with itself is that scalar.
pub proof fn lemma_scalar_average_idempotent(a: int)
    ensures
        spec_avg(a, a) == a,
{
}

/// Arithmetic mean of two fixed-point scalars.
pub fn average_scalar(a: i64, b: i64) -> (r: i64)
    requires
        -SCALAR_LIMIT <= a <= SCALAR_LIMIT,
        -SCALAR_LIMIT <= b <= SCALAR_LIMIT,
    ensures
        r == spec_avg(a as int, b as int),
        -SCALAR_LIMIT <= r <= SCALAR_LIMIT,
{
    let sum: i64 = a + b;
    sum.checked_div_euclid(2).unwrap()
}

/// A two-dimensional rigid placement: a translation together with a rotation.
/// The rotation is held as the two components of a complex number; a unit
/// rotation has magnitude equal to the fixed-point unit scale.
#[derive(Clone, Copy, PartialEq, Eq, Structural, Debug)]
pub struct Iso {
    /// Displacement.
    pub translation: IntV2,
    /// Real component of the rotation's complex representation.
    pub rotation_re: i64,
    /// Imaginary component of the rotation's complex representation.
    pub rotation_im: i64,
}

impl Iso {
    /// Every component within the scalar bound.
    pub open spec fn wf(self) -> bool {
        &&& -SCALAR_LIMIT <= self.translation.0 <= SCALAR_LIMIT
        &&& -SCALAR_LIMIT <= self.translation.1 <= SCALAR_LIMIT
        &&& -SCALAR_LIMIT <= self.rotation_re <= SCALAR_LIMIT
        &&& -SCALAR_LIMIT <= self.rotation_im <= SCALAR_LIMIT
    }
}

/// Average of two placements: the translation components are averaged, while
/// the rotation components of the two sides are summed, not averaged and not
/// renormalized to unit length.  Summing the complex representations keeps
/// the direction between the two rotations without going through an angle
/// wrap, at the cost of a magnitude that drifts away from the unit scale.
pub open spec fn spec_average_iso(iso1: Iso, iso2: Iso) -> Iso {
    Iso {
        translation: IntV2(
            spec_avg(iso1.translation.0 as int, iso2.translation.0 as int) as i64,
            spec_avg(iso1.translation.1 as int, iso2.translation.1 as int) as i64,
        ),
        rotation_re: (iso1.rotation_re + iso2.rotation_re) as i64,
        rotation_im: (iso1.rotation_im + iso2.rotation_im) as i64,
    }
}

/// Average 2 isometries.
pub fn average_iso(iso1: &Iso, iso2: &Iso) -> (r: Iso)
    requires
        iso1.wf(),
        iso2.wf(),
    ensures
        r == spec_average_iso(*iso1, *iso2),
{
    Iso {
        translation: IntV2(
            average_scalar(iso1.translation.0, iso2.translation.0),
            average_scalar(iso1.translation.1, iso2.translation.1),
        ),
        rotation_re: iso1.rotation_re + iso2.rotation_re,
        rotation_im: iso1.rotation_im + iso2.rotation_im,
    }
}

/// Replaces the error of a result by that error's display text.
pub fn to_string_err<T, E: core::fmt::Display>(result: Result<T, E>) -> (r: Result<T, String>)
    ensures
        r is Ok <==> result is Ok,
        result matches Ok(t) ==> r matches Ok(rt) && rt == t,
{
    match result {
        Ok(t) => Ok(t),
        Err(e) => Err(e.to_string()),
    }
}

/// Replaces the error of a result by its display text, prefixed with a
/// caller-supplied message.
pub fn to_string_err_with_message<T, E: core::fmt::Display>(
    result: Result<T, E>,
    message: &str,
) -> (r: Result<T, String>)
    ensures
        r is Ok <==> result is Ok,
        result matches Ok(t) ==> r matches Ok(rt) && rt == t,
        result matches Err(e) ==> r matches Err(s) && exists|t: String|
            #[trigger] vstd::string::to_string_from_display_ensures::<E>(&e, t) && s@ == "Message: "@
                + message@ + ", Error: "@ + t@,
{
    match result {
        Ok(t) => Ok(t),
        Err(e) => {
            let text = e.to_string();
            let mut s = "Message: ".to_owned();
            s.append(message);
            s.append(", Error: ");
            s.append(text.as_str());
            proof {
                assert(vstd::string::to_string_from_display_ensures::<E>(&e, text));
            }
            Err(s)
        },
    }
}

} // verus!
