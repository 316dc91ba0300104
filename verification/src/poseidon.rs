use vstd::arithmetic::div_mod::lemma_small_mod;
use vstd::prelude::*;

use crate::constants::CircomPoseidonConstants;
use crate::field::{fadd, fe_add, fe_mul, fe_pow5, fe_seq_view, field_prime, fmul, FieldElement};
use crate::params::{
    BOUNDARY_ARK_OFFSET, FINAL_ARK_OFFSET, FULL_ROUNDS, MATRIX_LEN, PARTIAL_ARK_OFFSET,
    PARTIAL_ROUNDS, ROUND_CONSTANTS_LEN, SPARSE_STRIDE, WIDTH,
};
use crate::schedule::{
    ark_spec, boundary_spec, circom_hash_spec, first_half_spec, mix_sparse_spec, mix_spec,
    partial_round_spec, partial_rounds_spec, permutation_spec, project_spec, second_half_spec,
    state_wf, substitute_full_spec,
};

verus! {

/// The 3-slot state a permutation run evolves: slot 0 is the capacity
/// slot, slots 1 and 2 carry the two inputs.
pub struct State {
    pub s0: FieldElement,
    pub s1: FieldElement,
    pub s2: FieldElement,
}

impl View for State {
    type V = Seq<int>;

    open spec fn view(&self) -> Seq<int> {
        seq![self.s0@, self.s1@, self.s2@]
    }
}

impl State {
    /// All three slots hold canonical field values.
    pub open spec fn wf(&self) -> bool {
        self.s0.wf() && self.s1.wf() && self.s2.wf()
    }

    /// Whether two states hold the same three field elements.
    pub fn equals(&self, other: &State) -> (r: bool)
        requires
            self.wf(),
            other.wf(),
        ensures
            r == (self@ == other@),
    {
        let r = self.s0.equals(&other.s0) && self.s1.equals(&other.s1) && self.s2.equals(
            &other.s2,
        );
        proof {
            if r {
                assert(self@ =~= other@);
            }
        }
        r
    }
}

/// One permutation run: the shared read-only table and the evolving state.
pub struct CircomPoseidon {
    pub constants: CircomPoseidonConstants,
    pub state: State,
}

impl CircomPoseidon {
    /// The table is valid and the state holds canonical values.
    pub open spec fn wf(&self) -> bool {
        self.constants.wf() && self.state.wf()
    }

    /// The quintic substitution on one scalar.
    pub fn sigma(x: &FieldElement) -> (r: FieldElement)
        requires
            x.wf(),
        ensures
            r@ == crate::field::fpow5(x@),
            r.wf(),
    {
        fe_pow5(x)
    }

    /// Adds the three round constants at offset `r` to the state.
    pub fn apply_ark(self, r: usize) -> (res: Self)
        requires
            self.wf(),
            r + WIDTH <= ROUND_CONSTANTS_LEN,
        ensures
            res.constants == self.constants,
            res.state@ == ark_spec(self.state@, self.constants.c_view(), r as int),
            res.wf(),
    {
        let s0 = fe_add(&self.state.s0, &self.constants.c[r]);
        let s1 = fe_add(&self.state.s1, &self.constants.c[r + 1]);
        let s2 = fe_add(&self.state.s2, &self.constants.c[r + 2]);
        let res = CircomPoseidon { constants: self.constants, state: State { s0, s1, s2 } };
        proof {
            assert(res.state@ =~= ark_spec(self.state@, res.constants.c_view(), r as int));
        }
        res
    }

    /// The quintic substitution on every slot.
    pub fn apply_sigma(self) -> (res: Self)
        requires
            self.wf(),
        ensures
            res.constants == self.constants,
            res.state@ == substitute_full_spec(self.state@),
            res.wf(),
    {
        let s0 = fe_pow5(&self.state.s0);
        let s1 = fe_pow5(&self.state.s1);
        let s2 = fe_pow5(&self.state.s2);
        let res = CircomPoseidon { constants: self.constants, state: State { s0, s1, s2 } };
        proof {
            assert(res.state@ =~= substitute_full_spec(self.state@));
        }
        res
    }

    /// The dense mix of a state with a row-major 3 x 3 matrix.
    fn mix_dense(st: &State, m: &Vec<FieldElement>) -> (res: State)
        requires
            st.wf(),
            m@.len() == MATRIX_LEN,
            forall|i: int| 0 <= i < m@.len() ==> (#[trigger] m@[i]).wf(),
        ensures
            res@ == mix_spec(st@, fe_seq_view(m@)),
            res.wf(),
    {
        let s0 = fe_add(
            &fe_add(&fe_mul(&st.s0, &m[0]), &fe_mul(&st.s1, &m[3])),
            &fe_mul(&st.s2, &m[6]),
        );
        let s1 = fe_add(
            &fe_add(&fe_mul(&st.s0, &m[1]), &fe_mul(&st.s1, &m[4])),
            &fe_mul(&st.s2, &m[7]),
        );
        let s2 = fe_add(
            &fe_add(&fe_mul(&st.s0, &m[2]), &fe_mul(&st.s1, &m[5])),
            &fe_mul(&st.s2, &m[8]),
        );
        let res = State { s0, s1, s2 };
        proof {
            assert(res@ =~= mix_spec(st@, fe_seq_view(m@)));
        }
        res
    }

    /// The dense mix with the full matrix `m`.
    pub fn apply_mix_m(self) -> (res: Self)
        requires
            self.wf(),
        ensures
            res.constants == self.constants,
            res.state@ == mix_spec(self.state@, self.constants.m_view()),
            res.wf(),
    {
        let state = Self::mix_dense(&self.state, &self.constants.m);
        CircomPoseidon { constants: self.constants, state }
    }

    /// The dense mix with the boundary matrix `p`.
    pub fn apply_mix_p(self) -> (res: Self)
        requires
            self.wf(),
        ensures
            res.constants == self.constants,
            res.state@ == mix_spec(self.state@, self.constants.p_view()),
            res.wf(),
    {
        let state = Self::mix_dense(&self.state, &self.constants.p);
        CircomPoseidon { constants: self.constants, state }
    }

    /// The sparse mix of partial round `r`.
    pub fn apply_mix_s(self, r: usize) -> (res: Self)
        requires
            self.wf(),
            r < PARTIAL_ROUNDS,
        ensures
            res.constants == self.constants,
            res.state@ == mix_sparse_spec(self.state@, self.constants.s_view(), r as int),
            res.wf(),
    {
        let base = SPARSE_STRIDE * r;
        let s = &self.constants.s;
        let s0 = fe_add(
            &fe_add(&fe_mul(&self.state.s0, &s[base]), &fe_mul(&self.state.s1, &s[base + 1])),
            &fe_mul(&self.state.s2, &s[base + 2]),
        );
        let s1 = fe_add(&self.state.s1, &fe_mul(&self.state.s0, &s[base + 3]));
        let s2 = fe_add(&self.state.s2, &fe_mul(&self.state.s0, &s[base + 4]));
        let res = CircomPoseidon { constants: self.constants, state: State { s0, s1, s2 } };
        proof {
            assert(res.state@ =~= mix_sparse_spec(
                self.state@,
                res.constants.s_view(),
                r as int,
            ));
        }
        res
    }

    /// One partial round: substitute slot 0, add its round constant,
    /// then the sparse mix.
    pub fn apply_partial_round(self, r: usize) -> (res: Self)
        requires
            self.wf(),
            r < PARTIAL_ROUNDS,
        ensures
            res.constants == self.constants,
            res.state@ == partial_round_spec(
                self.state@,
                self.constants.c_view(),
                self.constants.s_view(),
                r as int,
            ),
            res.wf(),
    {
        let ghost pre = self.state@;
        let s0 = fe_add(&fe_pow5(&self.state.s0), &self.constants.c[PARTIAL_ARK_OFFSET + r]);
        let mid = CircomPoseidon {
            constants: self.constants,
            state: State { s0, s1: self.state.s1, s2: self.state.s2 },
        };
        proof {
            assert(mid.state@ =~= seq![
                fadd(crate::field::fpow5(pre[0]), mid.constants.c_view()[PARTIAL_ARK_OFFSET + r]),
                pre[1],
                pre[2],
            ]);
        }
        mid.apply_mix_s(r)
    }

    /// The three full rounds before the boundary: substitution, the round
    /// constants at offset `WIDTH * (k + 1)`, and the full mix.
    pub fn apply_first_half_of_full_rounds(self) -> (res: Self)
        requires
            self.wf(),
        ensures
            res.constants == self.constants,
            res.state@ == first_half_spec(
                self.state@,
                self.constants.c_view(),
                self.constants.m_view(),
                (FULL_ROUNDS / 2 - 1) as nat,
            ),
            res.wf(),
    {
        let ghost orig = self.state@;
        let ghost tbl = self.constants;
        let mut cur = self;
        let mut k: usize = 0;
        while k < FULL_ROUNDS / 2 - 1
            invariant
                k <= FULL_ROUNDS / 2 - 1,
                cur.constants == tbl,
                cur.wf(),
                cur.state@ == first_half_spec(orig, tbl.c_view(), tbl.m_view(), k as nat),
            decreases FULL_ROUNDS / 2 - 1 - k,
        {
            cur = cur.apply_sigma().apply_ark((k + 1) * WIDTH).apply_mix_m();
            k = k + 1;
        }
        cur
    }

    /// The boundary round: substitution, the constants at the boundary
    /// offset, and the mix with `p`.
    pub fn apply_middle_round(self) -> (res: Self)
        requires
            self.wf(),
        ensures
            res.constants == self.constants,
            res.state@ == boundary_spec(
                self.state@,
                self.constants.c_view(),
                self.constants.p_view(),
            ),
            res.wf(),
    {
        self.apply_sigma().apply_ark(BOUNDARY_ARK_OFFSET).apply_mix_p()
    }

    /// All partial rounds in order.
    pub fn apply_partial_rounds(self) -> (res: Self)
        requires
            self.wf(),
        ensures
            res.constants == self.constants,
            res.state@ == partial_rounds_spec(
                self.state@,
                self.constants.c_view(),
                self.constants.s_view(),
                PARTIAL_ROUNDS as nat,
            ),
            res.wf(),
    {
        let ghost orig = self.state@;
        let ghost tbl = self.constants;
        let mut cur = self;
        let mut r: usize = 0;
        while r < PARTIAL_ROUNDS
            invariant
                r <= PARTIAL_ROUNDS,
                cur.constants == tbl,
                cur.wf(),
                cur.state@ == partial_rounds_spec(orig, tbl.c_view(), tbl.s_view(), r as nat),
            decreases PARTIAL_ROUNDS - r,
        {
            cur = cur.apply_partial_round(r);
            r = r + 1;
        }
        cur
    }

    /// The three full rounds after the partial phase: substitution, the
    /// round constants at `FINAL_ARK_OFFSET + WIDTH * k`, and the full mix.
    pub fn apply_second_half_of_full_rounds(self) -> (res: Self)
        requires
            self.wf(),
        ensures
            res.constants == self.constants,
            res.state@ == second_half_spec(
                self.state@,
                self.constants.c_view(),
                self.constants.m_view(),
                (FULL_ROUNDS / 2 - 1) as nat,
            ),
            res.wf(),
    {
        let ghost orig = self.state@;
        let ghost tbl = self.constants;
        let mut cur = self;
        let mut k: usize = 0;
        while k < FULL_ROUNDS / 2 - 1
            invariant
                k <= FULL_ROUNDS / 2 - 1,
                cur.constants == tbl,
                cur.wf(),
                cur.state@ == second_half_spec(orig, tbl.c_view(), tbl.m_view(), k as nat),
            decreases FULL_ROUNDS / 2 - 1 - k,
        {
            cur = cur.apply_sigma().apply_ark(FINAL_ARK_OFFSET + k * WIDTH).apply_mix_m();
            k = k + 1;
        }
        cur
    }

    /// Projects the state onto column `j` of the full matrix.
    pub fn mix_last(self, j: usize) -> (r: FieldElement)
        requires
            self.wf(),
            j < WIDTH,
        ensures
            r@ == project_spec(self.state@, self.constants.m_view(), j as int),
            r.wf(),
    {
        let m = &self.constants.m;
        fe_add(
            &fe_add(
                &fe_mul(&self.state.s0, &m[j]),
                &fe_mul(&self.state.s1, &m[WIDTH + j]),
            ),
            &fe_mul(&self.state.s2, &m[2 * WIDTH + j]),
        )
    }

    /// Projects the state onto column `j` of the full matrix.
    pub fn apply_mix_last(self, j: usize) -> (r: FieldElement)
        requires
            self.wf(),
            j < WIDTH,
        ensures
            r@ == project_spec(self.state@, self.constants.m_view(), j as int),
            r.wf(),
    {
        self.mix_last(j)
    }

    /// The two-input hash: the state `[0, x, y]` through the full round
    /// schedule under the canonical table, projected on output column 0.
    pub fn hash(x: FieldElement, y: FieldElement) -> (r: FieldElement)
        requires
            x.wf(),
            y.wf(),
        ensures
            r@ == circom_hash_spec(x@, y@),
            r.wf(),
    {
        let constants = CircomPoseidonConstants::default();
        let state = State { s0: FieldElement::zero(), s1: x, s2: y };
        let ghost c = constants.c_view();
        let ghost m = constants.m_view();
        let ghost p = constants.p_view();
        let ghost s = constants.s_view();
        let ghost init = state@;
        proof {
            assert(init =~= seq![0int, x@, y@]);
        }
        let cur = CircomPoseidon { constants, state }
            .apply_ark(0)
            .apply_first_half_of_full_rounds()
            .apply_middle_round()
            .apply_partial_rounds()
            .apply_second_half_of_full_rounds()
            .apply_sigma();
        proof {
            assert(cur.state@ == permutation_spec(init, c, m, p, s));
        }
        cur.mix_last(0)
    }
}

/// The two-input hash, computed by composing the stage transformations.
pub fn poseidon_hash(x: FieldElement, y: FieldElement) -> (r: FieldElement)
    requires
        x.wf(),
        y.wf(),
    ensures
        r@ == circom_hash_spec(x@, y@),
        r.wf(),
{
    let constants = CircomPoseidonConstants::default();
    let state = State { s0: FieldElement::zero(), s1: x, s2: y };
    let ghost c = constants.c_view();
    let ghost m = constants.m_view();
    let ghost p = constants.p_view();
    let ghost s = constants.s_view();
    let ghost init = state@;
    proof {
        assert(init =~= seq![0int, x@, y@]);
    }
    let cur = CircomPoseidon { constants, state };
    let cur = cur.apply_ark(0);
    let cur = cur.apply_first_half_of_full_rounds();
    let cur = cur.apply_middle_round();
    let cur = cur.apply_partial_rounds();
    let cur = cur.apply_second_half_of_full_rounds();
    let cur = cur.apply_sigma();
    proof {
        assert(cur.state@ == permutation_spec(init, c, m, p, s));
    }
    cur.apply_mix_last(0)
}

/// Determinism: the hash is a function of its two inputs alone, so any
/// two results for the same pair of inputs are equal.
pub proof fn lemma_hash_deterministic(x: int, y: int, r1: int, r2: int)
    requires
        r1 == circom_hash_spec(x, y),
        r2 == circom_hash_spec(x, y),
    ensures
        r1 == r2,
{
}

/// The dense, row-major form of partial round `r`'s sparse matrix: the
/// round's first three coefficients fill column 0, its last two fill the
/// rest of row 0, and the lower-right block is the identity.
pub open spec fn sparse_matrix_spec(s: Seq<int>, r: int) -> Seq<int> {
    seq![
        s[SPARSE_STRIDE * r],
        s[SPARSE_STRIDE * r + WIDTH as int],
        s[SPARSE_STRIDE * r + WIDTH + 1],
        s[SPARSE_STRIDE * r + 1],
        1,
        0,
        s[SPARSE_STRIDE * r + 2],
        0,
        1,
    ]
}

/// Stage equivalence: on a valid state, the sparse partial-round mix and
/// the dense mix with that round's matrix written out in full produce the
/// same state, for every round.
pub proof fn lemma_sparse_mix_matches_dense(st: Seq<int>, s: Seq<int>, r: int)
    requires
        state_wf(st),
        0 <= r,
        SPARSE_STRIDE * r + WIDTH + 1 < s.len(),
    ensures
        mix_sparse_spec(st, s, r) == mix_spec(st, sparse_matrix_spec(s, r)),
{
    let p = field_prime();
    let dense = mix_spec(st, sparse_matrix_spec(s, r));
    let sparse = mix_sparse_spec(st, s, r);
    // Column 0 is the same dot product on both sides.
    assert(dense[0] == sparse[0]);
    // Columns 1 and 2: multiplying by the identity entries keeps the
    // untouched slots, and the zero entries contribute nothing.
    lemma_small_mod(st[1] as nat, p as nat);
    lemma_small_mod(st[2] as nat, p as nat);
    lemma_small_mod(0nat, p as nat);
    assert(st[1] * 1 == st[1]) by (nonlinear_arith);
    assert(st[2] * 1 == st[2]) by (nonlinear_arith);
    assert(st[1] * 0 == 0) by (nonlinear_arith);
    assert(st[2] * 0 == 0) by (nonlinear_arith);
    assert(fmul(st[1], 1) == st[1] % p);
    assert(fmul(st[2], 1) == st[2] % p);
    assert(fmul(st[1], 0) == 0);
    assert(fmul(st[2], 0) == 0);
    let a1 = fadd(fmul(st[0], s[SPARSE_STRIDE * r + WIDTH as int]), st[1]);
    lemma_small_mod(a1 as nat, p as nat);
    assert(dense[1] == sparse[1]);
    let a2 = fadd(fmul(st[0], s[SPARSE_STRIDE * r + WIDTH + 1]), st[2]);
    lemma_small_mod(a2 as nat, p as nat);
    assert(dense[2] == sparse[2]);
    assert(dense =~= sparse);
}

impl CircomPoseidonConstants {
    /// Partial round `r`'s sparse matrix, written out as a dense matrix.
    pub fn sparse_round_matrix(&self, r: usize) -> (res: Vec<FieldElement>)
        requires
            self.wf(),
            r < PARTIAL_ROUNDS,
        ensures
            fe_seq_view(res@) == sparse_matrix_spec(self.s_view(), r as int),
            res@.len() == MATRIX_LEN,
            forall|i: int| 0 <= i < res@.len() ==> (#[trigger] res@[i]).wf(),
    {
        let base = SPARSE_STRIDE * r;
        let mut v: Vec<FieldElement> = Vec::new();
        v.push(self.s[base].clone());
        v.push(self.s[base + 3].clone());
        v.push(self.s[base + 4].clone());
        v.push(self.s[base + 1].clone());
        v.push(FieldElement::from_u64(1));
        v.push(FieldElement::from_u64(0));
        v.push(self.s[base + 2].clone());
        v.push(FieldElement::from_u64(0));
        v.push(FieldElement::from_u64(1));
        proof {
            assert(fe_seq_view(v@) =~= sparse_matrix_spec(self.s_view(), r as int));
        }
        v
    }
}

impl CircomPoseidon {
    /// Applies partial round `r`'s mix as a dense matrix product. It is
    /// proved to give exactly what the sparse formulation gives.
    pub fn apply_mix_s_dense(self, r: usize) -> (res: Self)
        requires
            self.wf(),
            r < PARTIAL_ROUNDS,
        ensures
            res.constants == self.constants,
            res.state@ == mix_spec(
                self.state@,
                sparse_matrix_spec(self.constants.s_view(), r as int),
            ),
            res.state@ == mix_sparse_spec(self.state@, self.constants.s_view(), r as int),
            res.wf(),
    {
        let mat = self.constants.sparse_round_matrix(r);
        let state = Self::mix_dense(&self.state, &mat);
        proof {
            lemma_sparse_mix_matches_dense(self.state@, self.constants.s_view(), r as int);
        }
        CircomPoseidon { constants: self.constants, state }
    }
}

} // verus!
