//! Verified core of a Simplex-noise generator.
//!
//! The noise field itself is a floating-point quantity and is assembled by an
//! unverified front end; everything discrete about the algorithm lives here and
//! is proved: the seeded permutation table (construction and lattice lookups,
//! with their index-range guarantees), the evaluator value type with its
//! seed/table coherence invariant, and the corner-ordering step that walks the
//! n+1 vertices of a simplex cell.

pub mod permutation;
pub mod simplex;
