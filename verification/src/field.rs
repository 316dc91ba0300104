use vstd::arithmetic::div_mod::{
    lemma_add_mod_noop, lemma_mul_mod_noop_left, lemma_small_mod,
};
use vstd::prelude::*;

verus! {

/// Order of the scalar field all arithmetic is carried out in.
pub open spec fn field_prime() -> int {
    21888242871839275222246405745257275088548364400416034343698204186575808495617int
}

/// Addition in the field.
pub open spec fn fadd(a: int, b: int) -> int {
    (a + b) % field_prime()
}

/// Multiplication in the field.
pub open spec fn fmul(a: int, b: int) -> int {
    (a * b) % field_prime()
}

/// The quintic substitution: the fifth power, reduced into the field.
pub open spec fn fpow5(a: int) -> int {
    fmul(fmul(fmul(fmul(a, a), a), a), a)
}

/// A scalar of the prime field, held opaquely: Verus cannot declare the
/// generic backend of `ark_bn254::Fr`, so the struct body is hidden and
/// every operation on it is a trusted wrapper below.
#[verifier::external_body]
pub struct FieldElement {
    fe: ark_bn254::Fr,
}

impl Clone for FieldElement {
    /// Relies on `Clone for ark_bn254::Fr`: an exact copy of the scalar.
    #[verifier::external_body]
    fn clone(&self) -> (r: Self)
        ensures
            r == *self,
    {
        FieldElement { fe: self.fe }
    }
}

/// The canonical representative of an opaque scalar: the integer in
/// `[0, field_prime())` it reduces to. Constrained only through the
/// contracts of the trusted field operations below.
pub uninterp spec fn fe_val(x: FieldElement) -> int;

impl View for FieldElement {
    type V = int;

    open spec fn view(&self) -> int {
        fe_val(*self)
    }
}

impl FieldElement {
    /// A canonical representative: a value the field reduces to.
    pub open spec fn wf(self) -> bool {
        0 <= self@ < field_prime()
    }
}

impl FieldElement {
    /// Relies on `ark_ff::Zero::zero`: the additive identity, canonical value 0.
    #[verifier::external_body]
    pub fn zero() -> (r: FieldElement)
        ensures
            fe_val(r) == 0,
    {
        FieldElement { fe: <ark_bn254::Fr as ark_ff::Zero>::zero() }
    }

    /// Relies on `From<u64> for ark_bn254::Fr`: embeds an integer below the prime.
    #[verifier::external_body]
    pub fn from_u64(x: u64) -> (r: FieldElement)
        ensures
            fe_val(r) == x as int,
    {
        FieldElement { fe: ark_bn254::Fr::from(x) }
    }

    /// Relies on `PartialEq for ark_bn254::Fr`: equality of canonical residues.
    #[verifier::external_body]
    pub fn equals(&self, other: &FieldElement) -> (r: bool)
        requires
            self.wf(),
            other.wf(),
        ensures
            r == (fe_val(*self) == fe_val(*other)),
    {
        self.fe == other.fe
    }

    /// Relies on `Display for ark_ff::Fp`: prints the canonical residue in decimal.
    #[verifier::external_body]
    pub fn to_decimal(&self) -> (r: String)
        requires
            self.wf(),
        ensures
            is_dec_seq(r@),
            dec_val(r@) == fe_val(*self),
    {
        format!("{}", self.fe)
    }
}

/// Relies on `Add for ark_bn254::Fr`: adds canonical residues mod the field prime.
#[verifier::external_body]
pub(crate) fn fe_add(a: &FieldElement, b: &FieldElement) -> (r: FieldElement)
    requires
        a.wf(),
        b.wf(),
    ensures
        fe_val(r) == fadd(fe_val(*a), fe_val(*b)),
{
    FieldElement { fe: a.fe + b.fe }
}

/// Relies on `Mul for ark_bn254::Fr`: multiplies canonical residues mod the field prime.
#[verifier::external_body]
pub(crate) fn fe_mul(a: &FieldElement, b: &FieldElement) -> (r: FieldElement)
    requires
        a.wf(),
        b.wf(),
    ensures
        fe_val(r) == fmul(fe_val(*a), fe_val(*b)),
{
    FieldElement { fe: a.fe * b.fe }
}

/// Relies on `ark_ff::Field::pow` with exponent 5: the fifth power mod the field prime.
#[verifier::external_body]
pub(crate) fn fe_pow5(a: &FieldElement) -> (r: FieldElement)
    requires
        a.wf(),
    ensures
        fe_val(r) == fpow5(fe_val(*a)),
{
    FieldElement { fe: ark_ff::Field::pow(&a.fe, [5u64]) }
}

/// The canonical values of a sequence of scalars.
pub open spec fn fe_seq_view(v: Seq<FieldElement>) -> Seq<int> {
    v.map_values(|x: FieldElement| x@)
}

/// A decimal digit.
pub open spec fn is_dec_digit(c: char) -> bool {
    48 <= c as int <= 57
}

/// A nonempty sequence of decimal digits.
pub open spec fn is_dec_seq(s: Seq<char>) -> bool {
    s.len() > 0 && (forall|i: int| 0 <= i < s.len() ==> is_dec_digit(#[trigger] s[i]))
}

/// The integer a decimal digit sequence denotes.
pub open spec fn dec_val(s: Seq<char>) -> int
    decreases s.len(),
{
    if s.len() == 0 {
        0
    } else {
        10 * dec_val(s.drop_last()) + (s.last() as int - 48)
    }
}

/// The field element a decimal literal denotes: its value reduced into the
/// field, or 0 where the literal is not a digit string.
pub open spec fn fe_of_dec(s: Seq<char>) -> int {
    if is_dec_seq(s) {
        dec_val(s) % field_prime()
    } else {
        0
    }
}

impl FieldElement {
    /// Parses a decimal digit string, reducing its value into the field.
    /// Returns `None` exactly on inputs that are not nonempty digit strings.
    pub fn from_decimal(s: &str) -> (r: Option<FieldElement>)
        ensures
            is_dec_seq(s@) <==> r is Some,
            r is Some ==> r->Some_0@ == dec_val(s@) % field_prime() && r->Some_0.wf(),
    {
        let n = s.unicode_len();
        if n == 0 {
            return None;
        }
        let mut acc = FieldElement::zero();
        let ten = FieldElement::from_u64(10);
        proof {
            lemma_small_mod(0nat, field_prime() as nat);
        }
        let mut i: usize = 0;
        while i < n
            invariant
                i <= n,
                n == s@.len(),
                acc@ == dec_val(s@.subrange(0, i as int)) % field_prime(),
                acc.wf(),
                ten@ == 10,
                ten.wf(),
                forall|j: int| 0 <= j < i ==> is_dec_digit(#[trigger] s@[j]),
            decreases n - i,
        {
            let c = s.get_char(i);
            let u = c as u32;
            if u < 48 || u > 57 {
                proof {
                    assert(!is_dec_digit(s@[i as int]));
                }
                return None;
            }
            let d = FieldElement::from_u64((u - 48) as u64);
            let ghost prefix = s@.subrange(0, i as int);
            let ghost extended = s@.subrange(0, i as int + 1);
            acc = fe_add(&fe_mul(&acc, &ten), &d);
            proof {
                let p = field_prime();
                let dv = dec_val(prefix);
                // ((dv % p) * 10) % p == (dv * 10) % p
                lemma_mul_mod_noop_left(dv, 10, p);
                // ((10 * dv) % p + d % p) % p == (10 * dv + d) % p
                lemma_add_mod_noop(10 * dv, d@, p);
                lemma_small_mod(d@ as nat, p as nat);
                assert(extended.drop_last() =~= prefix);
                assert(dec_val(extended) == 10 * dv + (s@[i as int] as int - 48));
                assert(acc@ == dec_val(extended) % p);
            }
            i += 1;
        }
        proof {
            assert(s@.subrange(0, n as int) =~= s@);
        }
        Some(acc)
    }

    /// Parses a table literal: a decimal string gives its reduced value,
    /// anything else gives 0, so the result always equals `fe_of_dec`.
    pub(crate) fn table_entry(s: &str) -> (r: FieldElement)
        ensures
            r@ == fe_of_dec(s@),
            r.wf(),
    {
        match FieldElement::from_decimal(s) {
            Some(v) => v,
            None => FieldElement::zero(),
        }
    }
}

} // verus!
