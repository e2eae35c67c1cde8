use vstd::prelude::*;

verus! {

/// Number of distinct values of one 64-bit limb.
pub open spec fn limb_base() -> nat {
    0x1_0000_0000_0000_0000
}

/// `limb_base()` raised to the power `n`.
pub open spec fn limb_base_pow(n: nat) -> nat
    decreases n,
{
    if n == 0 {
        1
    } else {
        limb_base() * limb_base_pow((n - 1) as nat)
    }
}

/// The number held by little-endian 64-bit limbs.
pub open spec fn limbs_value(limbs: Seq<u64>) -> nat
    decreases limbs.len(),
{
    if limbs.len() == 0 {
        0
    } else {
        limbs[0] as nat + limb_base() * limbs_value(limbs.drop_first())
    }
}

/// One more than the largest 512-bit unsigned integer.
pub open spec fn uint512_bound() -> nat {
    limb_base_pow(8)
}

/// Limbs below `limb_base()` each give a value below `limb_base()` to the
/// power of their count.
pub proof fn lemma_limbs_value_bound(limbs: Seq<u64>)
    ensures
        limbs_value(limbs) < limb_base_pow(limbs.len()),
    decreases limbs.len(),
{
    if limbs.len() > 0 {
        let rest = limbs.drop_first();
        lemma_limbs_value_bound(rest);
        let v = limbs_value(rest);
        let p = limb_base_pow(rest.len());
        let b = limb_base();
        let l = limbs[0] as nat;
        assert(l < b);
        assert(limbs_value(limbs) == l + b * v);
        assert(limb_base_pow(limbs.len()) == b * p);
        assert(l + b * v < b * p) by {
            vstd::arithmetic::mul::lemma_mul_inequality((v + 1) as int, p as int, b as int);
            vstd::arithmetic::mul::lemma_mul_is_distributive_add(b as int, v as int, 1);
            vstd::arithmetic::mul::lemma_mul_is_commutative(b as int, p as int);
            vstd::arithmetic::mul::lemma_mul_is_commutative(b as int, (v + 1) as int);
        }
    }
}

/// A 512-bit unsigned integer as eight little-endian 64-bit limbs, the
/// layout of `casper_types::U512`. Amounts and state roots are held in it.
#[derive(Clone, Copy, Debug, PartialEq, Eq)]
pub struct Uint512 {
    pub limbs: [u64; 8],
}

impl Uint512 {
    /// The number this value holds.
    pub open spec fn value(self) -> nat {
        limbs_value(self.limbs@)
    }

    /// Every value lies below `uint512_bound()`.
    pub proof fn lemma_value_bound(self)
        ensures
            self.value() < uint512_bound(),
    {
        lemma_limbs_value_bound(self.limbs@);
    }

    /// Zero lies below `uint512_bound()`.
    pub proof fn lemma_zero_below_bound()
        ensures
            0 < uint512_bound(),
    {
        lemma_limbs_value_bound(Seq::<u64>::empty());
        reveal_with_fuel(limb_base_pow, 9);
    }

    /// The value zero.
    pub fn zero() -> (r: Uint512)
        ensures
            r.value() == 0,
    {
        Uint512::from_u64(0)
    }

    /// The value `v`.
    pub fn from_u64(v: u64) -> (r: Uint512)
        ensures
            r.value() == v as nat,
    {
        let r = Uint512 { limbs: [v, 0, 0, 0, 0, 0, 0, 0] };
        proof {
            reveal_with_fuel(limbs_value, 9);
        }
        r
    }

    /// Whether both hold the same number.
    pub fn same_value(self, other: Uint512) -> (r: bool)
        ensures
            r <==> self.value() == other.value(),
    {
        self.checked_sub(other).is_some() && other.checked_sub(self).is_some()
    }

    /// The sum, or `None` where it does not fit in 512 bits.
    pub fn checked_add(self, other: Uint512) -> (r: Option<Uint512>)
        ensures
            r.is_none() <==> self.value() + other.value() >= uint512_bound(),
            r matches Some(s) ==> s.value() == self.value() + other.value(),
    {
        match u512_checked_add(self.limbs, other.limbs) {
            Some(limbs) => Some(Uint512 { limbs }),
            None => None,
        }
    }

    /// The difference, or `None` where `other` exceeds `self`.
    pub fn checked_sub(self, other: Uint512) -> (r: Option<Uint512>)
        ensures
            r.is_none() <==> self.value() < other.value(),
            r matches Some(s) ==> s.value() == self.value() - other.value(),
    {
        match u512_checked_sub(self.limbs, other.limbs) {
            Some(limbs) => Some(Uint512 { limbs }),
            None => None,
        }
    }
}

/// Relies on `casper_types::U512::checked_add`: `None` exactly when the sum
/// overflows 512 bits, else the sum.
#[verifier::external_body]
fn u512_checked_add(a: [u64; 8], b: [u64; 8]) -> (r: Option<[u64; 8]>)
    ensures
        r.is_none() <==> limbs_value(a@) + limbs_value(b@) >= uint512_bound(),
        r matches Some(s) ==> limbs_value(s@) == limbs_value(a@) + limbs_value(b@),
{
    casper_types::U512(a).checked_add(casper_types::U512(b)).map(|s| s.0)
}

/// Relies on `casper_types::U512::checked_sub`: `None` exactly when `b`
/// exceeds `a`, else the difference.
#[verifier::external_body]
fn u512_checked_sub(a: [u64; 8], b: [u64; 8]) -> (r: Option<[u64; 8]>)
    ensures
        r.is_none() <==> limbs_value(a@) < limbs_value(b@),
        r matches Some(s) ==> limbs_value(s@) == limbs_value(a@) - limbs_value(b@),
{
    casper_types::U512(a).checked_sub(casper_types::U512(b)).map(|s| s.0)
}

} // verus!
