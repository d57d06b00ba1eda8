//! Exactly checkable parts of a geodesy library: the layout of the Krüger
//! series coefficient tables used by the transverse Mercator projection, the
//! sign folding that reduces a transverse Mercator point to the first
//! quadrant, and the choice of method in the geocentric reverse transform.
pub mod geocentric_reverse;
pub mod krueger;
pub mod quadrant;
