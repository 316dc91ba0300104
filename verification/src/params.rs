use vstd::prelude::*;

verus! {

/// State width: one capacity slot plus the two input slots.
pub const WIDTH: usize = 3;

/// Number of full rounds (substitution applied to every slot).
pub const FULL_ROUNDS: usize = 8;

/// Number of partial rounds (substitution applied to slot 0 only).
pub const PARTIAL_ROUNDS: usize = 57;

/// Length of the round-constant table: `(FULL_ROUNDS + 1) * WIDTH + PARTIAL_ROUNDS`.
pub const ROUND_CONSTANTS_LEN: usize = 84;

/// Number of entries of a 3 x 3 mixing matrix, stored row-major.
pub const MATRIX_LEN: usize = 9;

/// Number of sparse coefficients each partial round consumes: `2 * WIDTH - 1`.
pub const SPARSE_STRIDE: usize = 5;

/// Length of the sparse-coefficient table: `SPARSE_STRIDE * PARTIAL_ROUNDS`.
pub const SPARSE_COEFFS_LEN: usize = 285;

/// Round-constant offset of the boundary round between the first full
/// half and the partial rounds.
pub const BOUNDARY_ARK_OFFSET: usize = 12;

/// Round-constant offset of the first partial round.
pub const PARTIAL_ARK_OFFSET: usize = 15;

/// Round-constant offset of the first round of the second full half.
pub const FINAL_ARK_OFFSET: usize = 72;

/// The table lengths and phase offsets all derive from the fixed
/// parameter set; this pins the named constants to those derivations.
pub proof fn lemma_params_consistent()
    ensures
        ROUND_CONSTANTS_LEN == (FULL_ROUNDS + 1) * WIDTH + PARTIAL_ROUNDS,
        MATRIX_LEN == WIDTH * WIDTH,
        SPARSE_STRIDE == 2 * WIDTH - 1,
        SPARSE_COEFFS_LEN == SPARSE_STRIDE * PARTIAL_ROUNDS,
        BOUNDARY_ARK_OFFSET == (FULL_ROUNDS / 2) * WIDTH,
        PARTIAL_ARK_OFFSET == (FULL_ROUNDS / 2 + 1) * WIDTH,
        FINAL_ARK_OFFSET == PARTIAL_ARK_OFFSET + PARTIAL_ROUNDS,
        FINAL_ARK_OFFSET + (FULL_ROUNDS / 2) * WIDTH == ROUND_CONSTANTS_LEN,
{
}

} // verus!
