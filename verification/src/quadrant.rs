//! Reduction of a transverse Mercator point to the first quadrant.
//!
//! The projection is symmetric about the central meridian and the equator,
//! and the point on the far side of the globe (more than 90 degrees from the
//! central meridian) maps onto the near side.  The forward projection folds
//! its input by sign and side, projects the folded point, and unfolds the
//! result; the reverse projection does the same with the projected point.
use vstd::prelude::*;

verus! {

/// How a point was folded into the first quadrant: which coordinates were
/// negated and whether the point lay on the back side of the globe.
#[derive(Clone, Copy, Debug, PartialEq, Eq, Structural)]
pub struct QuadrantFold {
    /// The latitude (forward) or northing (reverse) was negated.
    pub flip_lat: bool,
    /// The longitude difference (forward) or easting (reverse) was negated.
    pub flip_lon: bool,
    /// The point lies more than a quarter turn from the central meridian.
    pub backside: bool,
}

/// The fold of the forward projection.  On the back side, a point on the
/// equator is folded as if it were south of it, so that its northing comes
/// out negative.
pub open spec fn forward_fold(
    lat_negative: bool,
    lon_negative: bool,
    beyond_quarter: bool,
    on_equator: bool,
) -> QuadrantFold {
    QuadrantFold {
        flip_lat: lat_negative || (beyond_quarter && on_equator),
        flip_lon: lon_negative,
        backside: beyond_quarter,
    }
}

/// The fold of the reverse projection: by the signs of the scaled northing
/// `xi` and easting `eta`, and whether `|xi|` exceeds a quarter meridian.
pub open spec fn reverse_fold(xi_negative: bool, eta_negative: bool, beyond_quarter: bool) -> QuadrantFold {
    QuadrantFold { flip_lat: xi_negative, flip_lon: eta_negative, backside: beyond_quarter }
}

/// The sign `-1` or `1` that a negation flag stands for.
pub open spec fn sign_of(negated: bool) -> int {
    if negated {
        -1
    } else {
        1
    }
}

impl QuadrantFold {
    /// The meridian convergence changes sign when exactly one of the two
    /// coordinates was negated.
    pub open spec fn spec_negates_gamma(self) -> bool {
        self.flip_lat != self.flip_lon
    }

    /// Fold for the forward projection, given the sign bits of the latitude
    /// and of the longitude difference, whether that difference exceeds 90
    /// degrees in magnitude, and whether the latitude is zero.
    pub fn forward(lat_negative: bool, lon_negative: bool, beyond_quarter: bool, on_equator: bool) -> (fold: Self)
        ensures
            fold == forward_fold(lat_negative, lon_negative, beyond_quarter, on_equator),
            fold.flip_lon == lon_negative,
            fold.backside == beyond_quarter,
            fold.flip_lat == (lat_negative || (beyond_quarter && on_equator)),
    {
        let mut flip_lat = lat_negative;
        if beyond_quarter && on_equator {
            flip_lat = true;
        }
        QuadrantFold { flip_lat, flip_lon: lon_negative, backside: beyond_quarter }
    }

    /// Fold for the reverse projection, given the sign bits of the scaled
    /// northing and easting and whether the northing exceeds a quarter
    /// meridian in magnitude.
    pub fn reverse(xi_negative: bool, eta_negative: bool, beyond_quarter: bool) -> (fold: Self)
        ensures
            fold == reverse_fold(xi_negative, eta_negative, beyond_quarter),
            fold.flip_lat == xi_negative,
            fold.flip_lon == eta_negative,
            fold.backside == beyond_quarter,
    {
        QuadrantFold { flip_lat: xi_negative, flip_lon: eta_negative, backside: beyond_quarter }
    }

    /// Whether the meridian convergence is negated when unfolding.
    pub fn negates_gamma(&self) -> (r: bool)
        ensures
            r == self.spec_negates_gamma(),
            r == (self.flip_lat != self.flip_lon),
            sign_of(self.flip_lat) * sign_of(self.flip_lon) == sign_of(r),
    {
        self.flip_lat != self.flip_lon
    }
}

/// The reverse fold taken from the three flags of a forward fold is that same
/// fold, with the same sign for the meridian convergence.  This holds of the
/// folds as values; that the projected easting and northing carry these
/// flags as their signs is a floating-point fact that is not stated here.
pub proof fn lemma_reverse_fold_undoes_forward_fold(
    lat_negative: bool,
    lon_negative: bool,
    beyond_quarter: bool,
    on_equator: bool,
)
    ensures
        ({
            let f = forward_fold(lat_negative, lon_negative, beyond_quarter, on_equator);
            &&& reverse_fold(f.flip_lat, f.flip_lon, f.backside) == f
            &&& reverse_fold(f.flip_lat, f.flip_lon, f.backside).spec_negates_gamma()
                == f.spec_negates_gamma()
        }),
{
}

/// Unless the point is on the back side and on the equator, the forward fold
/// negates the latitude exactly when its sign bit is set.
pub proof fn lemma_forward_fold_keeps_latitude_sign(
    lat_negative: bool,
    lon_negative: bool,
    beyond_quarter: bool,
    on_equator: bool,
)
    requires
        !(beyond_quarter && on_equator),
    ensures
        forward_fold(lat_negative, lon_negative, beyond_quarter, on_equator).flip_lat == lat_negative,
{
}

/// The forward fold negates the easting exactly when the longitude
/// difference is negative, and marks the back side exactly when that
/// difference exceeds a quarter turn, whatever the latitude.
pub proof fn lemma_forward_fold_easting_and_side(
    lat_negative: bool,
    lon_negative: bool,
    beyond_quarter: bool,
    on_equator: bool,
)
    ensures
        forward_fold(lat_negative, lon_negative, beyond_quarter, on_equator).flip_lon == lon_negative,
        forward_fold(lat_negative, lon_negative, beyond_quarter, on_equator).backside == beyond_quarter,
{
}

/// Mirroring the longitude about the central meridian (`lon0 + d` against
/// `lon0 - d`) changes only the easting's sign and the convergence's sign:
/// the latitude flag and the side stay the same.
pub proof fn lemma_forward_fold_mirror_in_longitude(
    lat_negative: bool,
    beyond_quarter: bool,
    on_equator: bool,
)
    ensures
        ({
            let east = forward_fold(lat_negative, false, beyond_quarter, on_equator);
            let west = forward_fold(lat_negative, true, beyond_quarter, on_equator);
            &&& !east.flip_lon
            &&& west.flip_lon
            &&& east.flip_lat == west.flip_lat
            &&& east.backside == west.backside
            &&& east.spec_negates_gamma() != west.spec_negates_gamma()
        }),
{
}

/// Mirroring a latitude that is not zero about the equator changes only the
/// northing's sign and the convergence's sign.
pub proof fn lemma_forward_fold_mirror_in_latitude(lon_negative: bool, beyond_quarter: bool)
    ensures
        ({
            let north = forward_fold(false, lon_negative, beyond_quarter, false);
            let south = forward_fold(true, lon_negative, beyond_quarter, false);
            &&& !north.flip_lat
            &&& south.flip_lat
            &&& north.flip_lon == south.flip_lon
            &&& north.backside == south.backside
            &&& north.spec_negates_gamma() != south.spec_negates_gamma()
        }),
{
}

/// The convergence is negated exactly when the product of the two applied
/// signs is `-1`, for all four combinations of flags.
pub proof fn lemma_negates_gamma_is_sign_product(fold: QuadrantFold)
    ensures
        fold.spec_negates_gamma() == (fold.flip_lat != fold.flip_lon),
        sign_of(fold.flip_lat) * sign_of(fold.flip_lon) == sign_of(fold.spec_negates_gamma()),
        fold.flip_lat == fold.flip_lon ==> !fold.spec_negates_gamma(),
        (!fold.flip_lat && fold.flip_lon) ==> fold.spec_negates_gamma(),
        (fold.flip_lat && !fold.flip_lon) ==> fold.spec_negates_gamma(),
{
}

/// The reverse fold negates the latitude and longitude exactly by the signs
/// of the scaled northing and easting.
pub proof fn lemma_reverse_fold_reads_signs(xi_negative: bool, eta_negative: bool, beyond_quarter: bool)
    ensures
        reverse_fold(xi_negative, eta_negative, beyond_quarter).flip_lat == xi_negative,
        reverse_fold(xi_negative, eta_negative, beyond_quarter).flip_lon == eta_negative,
        reverse_fold(xi_negative, eta_negative, beyond_quarter).backside == beyond_quarter,
{
}

} // verus!
