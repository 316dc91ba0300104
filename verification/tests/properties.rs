use poseidon::constants::{CircomPoseidonConstants, ConstantsError};
use poseidon::field::FieldElement;
use poseidon::params::{
    FULL_ROUNDS, MATRIX_LEN, PARTIAL_ROUNDS, ROUND_CONSTANTS_LEN, SPARSE_COEFFS_LEN,
    SPARSE_STRIDE, WIDTH,
};
use poseidon::poseidon::{poseidon_hash, CircomPoseidon, State};

fn fe(s: &str) -> FieldElement {
    FieldElement::from_decimal(s).unwrap()
}

fn zeros(n: usize) -> Vec<FieldElement> {
    let mut v = Vec::new();
    for _ in 0..n {
        v.push(FieldElement::zero());
    }
    v
}

#[test]
fn test_hash_deterministic() {
    let x = fe("4919343374109933223627495853328117416310439472367144134356200729566675210393");
    let y = fe("5253109015430049131200882288700211126182357120559979176158196848667194692355");
    let first = CircomPoseidon::hash(x.clone(), y.clone());
    let second = CircomPoseidon::hash(x, y);
    assert!(first.equals(&second));
}

#[test]
fn test_entry_points_agree() {
    let x = fe("123456789");
    let y = fe("987654321");
    let via_loops = CircomPoseidon::hash(x.clone(), y.clone());
    let via_stages = poseidon_hash(x, y);
    assert!(via_loops.equals(&via_stages));
}

#[test]
fn test_hash_asymmetric() {
    let x = FieldElement::from_u64(1);
    let y = FieldElement::from_u64(2);
    let xy = CircomPoseidon::hash(x.clone(), y.clone());
    let yx = CircomPoseidon::hash(y, x);
    assert!(!xy.equals(&yx));
}

#[test]
fn test_sparse_matches_dense_every_round() {
    let mut constants = CircomPoseidonConstants::default();
    for r in 0..PARTIAL_ROUNDS {
        let st = || State {
            s0: fe("1073104925714253051670422979696287993089561378609784836524058216953452518800"),
            s1: fe("18698081889797527287892615152858593919908252735314388801102459459095355586529"),
            s2: fe("964734953777785051088731259326514402767379753056823320461487398194316968472"),
        };
        let sparse = CircomPoseidon { constants, state: st() }.apply_mix_s(r);
        let dense = CircomPoseidon { constants: sparse.constants, state: st() }
            .apply_mix_s_dense(r);
        assert!(sparse.state.equals(&dense.state));
        constants = dense.constants;
    }
}

#[test]
fn test_rejects_short_round_constants() {
    let r = CircomPoseidonConstants::new(
        zeros(ROUND_CONSTANTS_LEN - 1),
        zeros(MATRIX_LEN),
        zeros(MATRIX_LEN),
        zeros(SPARSE_COEFFS_LEN),
    );
    assert!(matches!(r, Err(ConstantsError::WrongRoundConstantsLength)));
}

#[test]
fn test_rejects_wrong_full_matrix() {
    let r = CircomPoseidonConstants::new(
        zeros(ROUND_CONSTANTS_LEN),
        zeros(MATRIX_LEN + 1),
        zeros(MATRIX_LEN),
        zeros(SPARSE_COEFFS_LEN),
    );
    assert!(matches!(r, Err(ConstantsError::WrongFullMatrixLength)));
}

#[test]
fn test_rejects_wrong_boundary_matrix() {
    let r = CircomPoseidonConstants::new(
        zeros(ROUND_CONSTANTS_LEN),
        zeros(MATRIX_LEN),
        zeros(0),
        zeros(SPARSE_COEFFS_LEN),
    );
    assert!(matches!(r, Err(ConstantsError::WrongBoundaryMatrixLength)));
}

#[test]
fn test_rejects_wrong_sparse_coefficients() {
    let r = CircomPoseidonConstants::new(
        zeros(ROUND_CONSTANTS_LEN),
        zeros(MATRIX_LEN),
        zeros(MATRIX_LEN),
        zeros(SPARSE_COEFFS_LEN + 5),
    );
    assert!(matches!(r, Err(ConstantsError::WrongSparseCoefficientsLength)));
}

#[test]
fn test_accepts_correct_lengths() {
    let r = CircomPoseidonConstants::new(
        zeros(ROUND_CONSTANTS_LEN),
        zeros(MATRIX_LEN),
        zeros(MATRIX_LEN),
        zeros(SPARSE_COEFFS_LEN),
    );
    assert!(r.is_ok());
}

#[test]
fn test_capacity_domain_separation() {
    let x = fe("4919343374109933223627495853328117416310439472367144134356200729566675210393");
    let y = fe("5253109015430049131200882288700211126182357120559979176158196848667194692355");
    let with_capacity = CircomPoseidon {
        constants: CircomPoseidonConstants::default(),
        state: State { s0: FieldElement::from_u64(7), s1: x.clone(), s2: y.clone() },
    }
        .apply_ark(0)
        .apply_first_half_of_full_rounds()
        .apply_middle_round()
        .apply_partial_rounds()
        .apply_second_half_of_full_rounds()
        .apply_sigma()
        .mix_last(0);
    let with_zero_capacity = CircomPoseidon::hash(x, y);
    assert!(!with_capacity.equals(&with_zero_capacity));
}

#[test]
fn test_from_decimal_rejects_empty() {
    assert!(FieldElement::from_decimal("").is_none());
}

#[test]
fn test_from_decimal_rejects_non_digits() {
    assert!(FieldElement::from_decimal("12a3").is_none());
    assert!(FieldElement::from_decimal("-5").is_none());
    assert!(FieldElement::from_decimal(" 5").is_none());
}

#[test]
fn test_from_decimal_zero() {
    let z = FieldElement::from_decimal("0").unwrap();
    assert!(z.equals(&FieldElement::zero()));
}

#[test]
fn test_from_decimal_reduces_mod_prime() {
    // The field's order itself reduces to zero.
    let p = "21888242871839275222246405745257275088548364400416034343698204186575808495617";
    let reduced = FieldElement::from_decimal(p).unwrap();
    assert!(reduced.equals(&FieldElement::zero()));
}

#[test]
fn test_from_u64_matches_decimal() {
    let a = FieldElement::from_u64(1234567890);
    let b = fe("1234567890");
    assert!(a.equals(&b));
}

#[test]
fn test_to_decimal_round_trip() {
    let d = "4804190683062966564094284552215482492423412176373545691806986132546823080430";
    assert_eq!(fe(d).to_decimal(), d);
    assert_eq!(FieldElement::zero().to_decimal(), "0");
}

#[test]
fn test_offsets_derive_from_parameters() {
    assert_eq!(ROUND_CONSTANTS_LEN, (FULL_ROUNDS + 1) * WIDTH + PARTIAL_ROUNDS);
    assert_eq!(MATRIX_LEN, WIDTH * WIDTH);
    assert_eq!(SPARSE_STRIDE, 2 * WIDTH - 1);
    assert_eq!(SPARSE_COEFFS_LEN, SPARSE_STRIDE * PARTIAL_ROUNDS);
    assert_eq!(poseidon::params::BOUNDARY_ARK_OFFSET, (FULL_ROUNDS / 2) * WIDTH);
    assert_eq!(poseidon::params::PARTIAL_ARK_OFFSET, (FULL_ROUNDS / 2 + 1) * WIDTH);
    assert_eq!(
        poseidon::params::FINAL_ARK_OFFSET,
        (FULL_ROUNDS / 2 + 1) * WIDTH + PARTIAL_ROUNDS,
    );
}
