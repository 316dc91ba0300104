//! The Poseidon two-input hash over a large prime scalar field, in its
//! fixed width-3 parameterization: 8 full rounds, 57 partial rounds, and
//! the quintic substitution. The permutation engine carries a full
//! functional contract; the field arithmetic itself is an opaque outside
//! capability, trusted only through the contracts in `field`.

pub mod constants;
pub mod field;
pub mod params;
pub mod poseidon;
pub mod schedule;
