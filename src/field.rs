use vstd::prelude::*;
use halo2_proofs::pasta::Fp;
use halo2_proofs::pasta::group::ff::PrimeField;

verus! {

/// The order of the Pallas base field.
pub open spec fn modulus() -> nat {
    0x40000000000000000000000000000000224698fc094cf91b992d30ed00000001nat
}

/// The integer that a little-endian byte string encodes.
pub open spec fn le_value(s: Seq<u8>) -> nat
    decreases s.len(),
{
    if s.len() == 0 {
        0
    } else {
        s[0] as nat + 256 * le_value(s.drop_first())
    }
}

/// Field addition on canonical representatives.
pub open spec fn fadd(x: nat, y: nat) -> nat {
    (x + y) % modulus()
}

/// Field multiplication on canonical representatives.
pub open spec fn fmul(x: nat, y: nat) -> nat {
    (x * y) % modulus()
}

/// Field squaring on canonical representatives.
pub open spec fn fsq(x: nat) -> nat {
    fmul(x, x)
}

/// An element of the Pallas base field, held as its canonical little-endian
/// encoding.
#[derive(Clone, Copy, Debug, PartialEq, Eq)]
pub struct Fe {
    repr: [u8; 32],
}

impl Fe {
    /// The canonical integer representative of this element.
    pub closed spec fn val(&self) -> nat {
        le_value(self.repr@)
    }

    /// The encoding is canonical: it lies below the modulus.
    pub open spec fn wf(&self) -> bool {
        self.val() < modulus()
    }

    /// Relies on `From<u64> for Fp` and `PrimeField::to_repr`: the element
    /// `v mod p`, encoded canonically in little-endian order.
    #[verifier::external_body]
    fn lift(v: u64) -> (r: Fe)
        ensures
            r.val() == v as nat % modulus(),
    {
        Fe { repr: Fp::from(v).to_repr() }
    }

    /// The field element with integer value `v` (every `u64` lies below p).
    pub fn from_u64(v: u64) -> (r: Fe)
        ensures
            r.val() == v as nat,
            r.wf(),
    {
        let r = Fe::lift(v);
        proof {
            assert((v as nat) < modulus());
            vstd::arithmetic::div_mod::lemma_small_mod(v as nat, modulus());
        }
        r
    }

    /// Relies on `PrimeField::from_repr` (accepts every canonical encoding),
    /// `Fp + Fp` and `to_repr`: the sum modulo p.
    #[verifier::external_body]
    pub(crate) fn add(&self, o: &Fe) -> (r: Fe)
        requires
            self.wf(),
            o.wf(),
        ensures
            r.val() == fadd(self.val(), o.val()),
    {
        let x = Fp::from_repr(self.repr).unwrap();
        let y = Fp::from_repr(o.repr).unwrap();
        Fe { repr: (x + y).to_repr() }
    }

    /// Relies on `PrimeField::from_repr`, `Fp::square` and `to_repr`: the
    /// square modulo p.
    #[verifier::external_body]
    pub(crate) fn square(&self) -> (r: Fe)
        requires
            self.wf(),
        ensures
            r.val() == fsq(self.val()),
    {
        Fe { repr: Fp::from_repr(self.repr).unwrap().square().to_repr() }
    }

    /// Relies on `PrimeField::from_repr` and `PartialEq for Fp`: equality of
    /// field elements.
    #[verifier::external_body]
    pub(crate) fn equals(&self, o: &Fe) -> (r: bool)
        requires
            self.wf(),
            o.wf(),
        ensures
            r == (self.val() == o.val()),
    {
        Fp::from_repr(self.repr).unwrap() == Fp::from_repr(o.repr).unwrap()
    }
}

} // verus!
