use vstd::prelude::*;

use crate::field::{fadd, field_prime, fmul, fpow5};
use crate::params::{
    BOUNDARY_ARK_OFFSET, FINAL_ARK_OFFSET, FULL_ROUNDS, PARTIAL_ARK_OFFSET, PARTIAL_ROUNDS,
    SPARSE_STRIDE, WIDTH,
};

verus! {

/// A valid 3-slot state: three canonical field values.
pub open spec fn state_wf(st: Seq<int>) -> bool {
    &&& st.len() == 3
    &&& 0 <= st[0] < field_prime()
    &&& 0 <= st[1] < field_prime()
    &&& 0 <= st[2] < field_prime()
}

/// Round-constant addition: slot `i` gains `c[off + i]`.
pub open spec fn ark_spec(st: Seq<int>, c: Seq<int>, off: int) -> Seq<int> {
    seq![fadd(st[0], c[off]), fadd(st[1], c[off + 1]), fadd(st[2], c[off + 2])]
}

/// Full substitution: the fifth power on every slot.
pub open spec fn substitute_full_spec(st: Seq<int>) -> Seq<int> {
    seq![fpow5(st[0]), fpow5(st[1]), fpow5(st[2])]
}

/// The dot product of the state with the column `(x, y, z)`.
pub open spec fn dot3(st: Seq<int>, x: int, y: int, z: int) -> int {
    fadd(fadd(fmul(st[0], x), fmul(st[1], y)), fmul(st[2], z))
}

/// Dense mix: `new[j]` is the dot product of the state with column `j`
/// of the row-major 3 x 3 matrix `m`.
pub open spec fn mix_spec(st: Seq<int>, m: Seq<int>) -> Seq<int> {
    seq![
        dot3(st, m[0], m[WIDTH as int], m[2 * WIDTH as int]),
        dot3(st, m[1], m[WIDTH + 1], m[2 * WIDTH + 1]),
        dot3(st, m[2], m[WIDTH + 2], m[2 * WIDTH + 2]),
    ]
}

/// Sparse mix of partial round `r`: slot 0 becomes a full dot product
/// with the round's first three coefficients, slots 1 and 2 gain slot 0
/// scaled by the round's last two coefficients.
pub open spec fn mix_sparse_spec(st: Seq<int>, s: Seq<int>, r: int) -> Seq<int> {
    seq![
        dot3(
            st,
            s[SPARSE_STRIDE * r],
            s[SPARSE_STRIDE * r + 1],
            s[SPARSE_STRIDE * r + 2],
        ),
        fadd(st[1], fmul(st[0], s[SPARSE_STRIDE * r + WIDTH as int])),
        fadd(st[2], fmul(st[0], s[SPARSE_STRIDE * r + WIDTH + 1])),
    ]
}

/// One partial round: substitute slot 0, add its single round constant,
/// then the sparse mix.
pub open spec fn partial_round_spec(st: Seq<int>, c: Seq<int>, s: Seq<int>, r: int) -> Seq<int> {
    mix_sparse_spec(
        seq![fadd(fpow5(st[0]), c[PARTIAL_ARK_OFFSET + r]), st[1], st[2]],
        s,
        r,
    )
}

/// The first `k` rounds of the first full half, after the initial
/// constant addition: substitution, constants at offset `WIDTH * i` for
/// round `i` in `1..=k`, then the full mix.
pub open spec fn first_half_spec(st: Seq<int>, c: Seq<int>, m: Seq<int>, k: nat) -> Seq<int>
    decreases k,
{
    if k == 0 {
        st
    } else {
        mix_spec(
            ark_spec(
                substitute_full_spec(first_half_spec(st, c, m, (k - 1) as nat)),
                c,
                WIDTH * k,
            ),
            m,
        )
    }
}

/// The boundary round at the full-to-partial transition: substitution,
/// constants at the boundary offset, then the mix with `p`.
pub open spec fn boundary_spec(st: Seq<int>, c: Seq<int>, p: Seq<int>) -> Seq<int> {
    mix_spec(ark_spec(substitute_full_spec(st), c, BOUNDARY_ARK_OFFSET as int), p)
}

/// The first `k` partial rounds.
pub open spec fn partial_rounds_spec(st: Seq<int>, c: Seq<int>, s: Seq<int>, k: nat) -> Seq<int>
    decreases k,
{
    if k == 0 {
        st
    } else {
        partial_round_spec(partial_rounds_spec(st, c, s, (k - 1) as nat), c, s, k - 1)
    }
}

/// The first `k` rounds of the second full half: substitution, constants
/// at `FINAL_ARK_OFFSET + WIDTH * i` for round `i` in `0..k`, full mix.
pub open spec fn second_half_spec(st: Seq<int>, c: Seq<int>, m: Seq<int>, k: nat) -> Seq<int>
    decreases k,
{
    if k == 0 {
        st
    } else {
        mix_spec(
            ark_spec(
                substitute_full_spec(second_half_spec(st, c, m, (k - 1) as nat)),
                c,
                FINAL_ARK_OFFSET + WIDTH * (k - 1),
            ),
            m,
        )
    }
}

/// The full fixed round schedule on a 3-slot state: initial constant
/// addition, three full rounds, the boundary round, all partial rounds,
/// three more full rounds, and the final substitution.
pub open spec fn permutation_spec(
    st: Seq<int>,
    c: Seq<int>,
    m: Seq<int>,
    p: Seq<int>,
    s: Seq<int>,
) -> Seq<int> {
    substitute_full_spec(
        second_half_spec(
            partial_rounds_spec(
                boundary_spec(
                    first_half_spec(ark_spec(st, c, 0), c, m, (FULL_ROUNDS / 2 - 1) as nat),
                    c,
                    p,
                ),
                c,
                s,
                PARTIAL_ROUNDS as nat,
            ),
            c,
            m,
            (FULL_ROUNDS / 2 - 1) as nat,
        ),
    )
}

/// Projection onto column `j` of the row-major matrix `m`: how the single
/// output element is extracted.
pub open spec fn project_spec(st: Seq<int>, m: Seq<int>, j: int) -> int {
    dot3(st, m[j], m[WIDTH + j], m[2 * WIDTH + j])
}

/// The two-input hash under a given table: the state `[0, x, y]` through
/// the permutation, projected onto output column 0.
pub open spec fn hash_spec(
    c: Seq<int>,
    m: Seq<int>,
    p: Seq<int>,
    s: Seq<int>,
    x: int,
    y: int,
) -> int {
    project_spec(permutation_spec(seq![0, x, y], c, m, p, s), m, 0)
}

/// The two-input hash under the canonical table.
pub open spec fn circom_hash_spec(x: int, y: int) -> int {
    hash_spec(
        crate::constants::circom_c(),
        crate::constants::circom_m(),
        crate::constants::circom_p(),
        crate::constants::circom_s(),
        x,
        y,
    )
}

} // verus!
