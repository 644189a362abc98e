//! A fixed-dimension numeric value type: an ordered sequence of N scalars
//! supporting elementwise arithmetic, scalar scaling, negation, indexed
//! access, and tolerance-based equality.
//!
//! The scalar operations themselves (addition, negation, the tolerance
//! predicate) are supplied by the caller as closures, so the container logic
//! is verified once for every scalar type and every operation.

pub mod elementwise;
pub mod tuple;
