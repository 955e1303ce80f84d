//! Verified core of an axially-symmetric electromagnet assembly: an id-keyed
//! registry of current sources (loops, annular rings, thin solenoids, coil
//! solenoids) with uniqueness and reserved-word invariants, a discrete
//! orientation state mapping the symmetry axis onto a lab-frame axis, and
//! textual introspection of the registered sources.
//!
//! Numeric parameters (radii, currents, positions, field values) are carried
//! as opaque binary64 bit patterns (`scalar::Scalar`): the registry and
//! orientation logic never interprets them, and the floating-point field
//! evaluation itself lives outside the verified core.

pub mod errors;
pub mod orientation;
pub mod registry;
pub mod scalar;
pub mod source;
pub mod system;
pub mod text;
