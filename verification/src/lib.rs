//! Configuration and validation layer for the BOBYQA derivative-free
//! optimizer.
//!
//! BOBYQA minimizes a black-box objective over box-bounded variables with a
//! trust-region, quadratic-interpolation search. The numerical search itself
//! is a foreign routine with a fixed calling contract; it is out of scope
//! here. What this crate provides, fully verified, is everything that must be
//! right *before* that routine may be entered:
//!
//! * the [`Bobyqa`](optimizer::Bobyqa) configuration builder and its setters,
//! * validation of the run geometry (dimensions, interpolation-set size,
//!   bounds, point length), with one error value per violated condition,
//! * the exact scratch-buffer size the routine's working arrays need, and
//! * assembly of a [`RunPlan`](optimizer::RunPlan): the validated arguments,
//!   plus a zero-initialized scratch buffer, for one run.
//!
//! Verified code holds no floating-point values. Every floating-point
//! quantity (trust-region radii, bounds) crosses this crate's boundary as an
//! order-preserving 64-bit key: for non-NaN values, comparing keys as
//! unsigned integers agrees with the numeric order of the values they stand
//! for. A caller encodes a non-negative value by setting the top bit of its
//! bit pattern, and a negative value by inverting all bits of its bit
//! pattern; decoding inverts that map. The crate itself only stores, hands
//! back, and compares keys.

pub mod optimizer;
pub mod scratch;

pub use optimizer::Bobyqa;
pub use optimizer::BobyqaError;
pub use optimizer::RunPlan;
