//! Choice of method in the reverse geocentric transform.
use vstd::prelude::*;

verus! {

/// The method by which a geocentric point is converted to geodetic
/// coordinates.
#[derive(Clone, Copy, Debug, PartialEq, Eq, Structural)]
pub enum ReverseMethod {
    /// The point is so far away that the earth is treated as a point.
    FarPoint,
    /// The ellipsoid is a sphere.
    Sphere,
    /// The general solution through a cubic.
    General,
    /// The limit of the general solution on the oblate equatorial plane or
    /// the prolate rotation axis, where the general formula gives 0/0.
    Singular,
}

/// Chooses the method, given whether the point's distance from the center
/// exceeds the radius beyond which the earth is treated as a point, whether
/// the ellipsoid is a sphere (`e^4 == 0`), and whether the point lies where
/// the general formula degenerates (`e^4 q == 0` and `r <= 0`).  The tests
/// are made in that order.
pub fn select_reverse_method(beyond_max_radius: bool, spherical: bool, singular: bool) -> (method: ReverseMethod)
    ensures
        method == ReverseMethod::FarPoint <==> beyond_max_radius,
        method == ReverseMethod::Sphere <==> !beyond_max_radius && spherical,
        method == ReverseMethod::Singular <==> !beyond_max_radius && !spherical && singular,
        method == ReverseMethod::General <==> !beyond_max_radius && !spherical && !singular,
{
    if beyond_max_radius {
        ReverseMethod::FarPoint
    } else if spherical {
        ReverseMethod::Sphere
    } else if singular {
        ReverseMethod::Singular
    } else {
        ReverseMethod::General
    }
}

} // verus!
