use vstd::prelude::*;
use crate::scalar::Scalar;

verus! {

/// The lab-frame axis that the system's symmetry axis is aligned with. A
/// system has exactly one alignment at a time; setting it replaces the
/// previous one outright, it does not compose with it.
#[derive(Debug, Clone, Copy, PartialEq, Eq, Structural)]
pub enum Axis {
    X,
    Y,
    Z,
}

/// The intrinsic frame of a query point: the coordinate along the aligned
/// axis first, then the two lab coordinates that span the radial plane, in
/// the cyclic order x → y → z.
pub open spec fn spec_to_intrinsic(axis: Axis, p: (Scalar, Scalar, Scalar)) -> (
    Scalar,
    Scalar,
    Scalar,
) {
    match axis {
        Axis::X => (p.0, p.1, p.2),
        Axis::Y => (p.1, p.2, p.0),
        Axis::Z => (p.2, p.0, p.1),
    }
}

/// The inverse placement: an (axial, radial-plane) triple back into lab
/// coordinates.
pub open spec fn spec_from_intrinsic(axis: Axis, q: (Scalar, Scalar, Scalar)) -> (
    Scalar,
    Scalar,
    Scalar,
) {
    match axis {
        Axis::X => (q.0, q.1, q.2),
        Axis::Y => (q.2, q.0, q.1),
        Axis::Z => (q.1, q.2, q.0),
    }
}

/// Maps a lab-frame coordinate triple into the intrinsic frame of the given
/// alignment.
pub fn to_intrinsic(axis: Axis, p: (Scalar, Scalar, Scalar)) -> (r: (Scalar, Scalar, Scalar))
    ensures
        r == spec_to_intrinsic(axis, p),
{
    match axis {
        Axis::X => (p.0, p.1, p.2),
        Axis::Y => (p.1, p.2, p.0),
        Axis::Z => (p.2, p.0, p.1),
    }
}

/// Places an intrinsic-frame triple back into lab coordinates.
pub fn from_intrinsic(axis: Axis, q: (Scalar, Scalar, Scalar)) -> (r: (Scalar, Scalar, Scalar))
    ensures
        r == spec_from_intrinsic(axis, q),
{
    match axis {
        Axis::X => (q.0, q.1, q.2),
        Axis::Y => (q.2, q.0, q.1),
        Axis::Z => (q.1, q.2, q.0),
    }
}

/// Placing back what was mapped in recovers the lab coordinates: the two
/// permutations are mutually inverse, for every alignment.
pub proof fn lemma_intrinsic_round_trip(axis: Axis, p: (Scalar, Scalar, Scalar))
    ensures
        spec_from_intrinsic(axis, spec_to_intrinsic(axis, p)) == p,
        spec_to_intrinsic(axis, spec_from_intrinsic(axis, p)) == p,
{
}

/// Alignment equivalence: a point on the z axis under the z alignment and
/// the same point rotated onto the x axis under the x alignment present the
/// identical intrinsic query to every source — the axial coordinate is `d`
/// and the radial-plane pair is the same. In particular, for a point at
/// distance `d` along the aligned axis and `a`, `b` in the radial plane, the
/// intrinsic frames coincide.
pub proof fn lemma_alignment_equivalence(d: Scalar, a: Scalar, b: Scalar)
    ensures
        spec_to_intrinsic(Axis::Z, (a, b, d)) == spec_to_intrinsic(Axis::X, (d, a, b)),
        spec_to_intrinsic(Axis::Z, (a, b, d)) == spec_to_intrinsic(Axis::Y, (b, d, a)),
{
}

} // verus!
