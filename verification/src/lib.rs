//! The decision core of a signed-distance-field sphere tracer.
//!
//! Distances are double-precision numbers, carried here as their IEEE 754
//! bit patterns: the library orders, negates and selects them exactly and
//! leaves arithmetic to its caller. On top of that ordering stand the
//! distance combinators, the composition of the scene's compound shapes,
//! the sphere-tracing state machine, and the discrete parts of shading
//! and of the frame scan.

pub mod combine;
pub mod frame;
pub mod march;
pub mod primitive;
pub mod scalar;
pub mod scene;
pub mod shade;
pub mod value;
pub mod vector;
