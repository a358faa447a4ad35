use vstd::prelude::*;

verus! {

/// A 256-bit unsigned integer held as four 64-bit limbs, least significant
/// first.  Ledger accounts and wallet identifiers are values of this type.
#[derive(Clone, Copy, PartialEq, Eq, Structural, Debug)]
pub struct Uint256 {
    pub limb0: u64,
    pub limb1: u64,
    pub limb2: u64,
    pub limb3: u64,
}

/// An account on the external ledger; the null account is the value zero.
pub type AccountId = Uint256;

/// Identifier of an escrow wallet, issued as a strictly increasing counter.
pub type WalletId = Uint256;

/// Identifier of one fund-moving transaction attempt.
pub type TxId = u64;

impl Uint256 {
    /// The numeric value represented by the four limbs.
    pub open spec fn value(self) -> nat {
        (self.limb0 + self.limb1 * 0x1_0000_0000_0000_0000int
            + self.limb2 * 0x1_0000_0000_0000_0000_0000_0000_0000_0000int
            + self.limb3 * 0x1_0000_0000_0000_0000_0000_0000_0000_0000_0000_0000_0000_0000int) as nat
    }

    /// The largest representable value, 2^256 - 1.
    pub open spec fn max_value() -> nat {
        0xffff_ffff_ffff_ffff_ffff_ffff_ffff_ffff_ffff_ffff_ffff_ffff_ffff_ffff_ffff_ffffint as nat
    }

    /// Every representable value lies below 2^256.
    pub proof fn lemma_value_bounded(self)
        ensures
            self.value() <= Self::max_value(),
    {
        assert(self.limb0 <= 0xffff_ffff_ffff_ffffu64);
        assert(self.limb1 * 0x1_0000_0000_0000_0000int
            <= 0xffff_ffff_ffff_ffffint * 0x1_0000_0000_0000_0000int) by (nonlinear_arith)
            requires self.limb1 <= 0xffff_ffff_ffff_ffffu64;
        assert(self.limb2 * 0x1_0000_0000_0000_0000_0000_0000_0000_0000int
            <= 0xffff_ffff_ffff_ffffint * 0x1_0000_0000_0000_0000_0000_0000_0000_0000int) by (nonlinear_arith)
            requires self.limb2 <= 0xffff_ffff_ffff_ffffu64;
        assert(self.limb3 * 0x1_0000_0000_0000_0000_0000_0000_0000_0000_0000_0000_0000_0000int
            <= 0xffff_ffff_ffff_ffff
                * 0x1_0000_0000_0000_0000_0000_0000_0000_0000_0000_0000_0000_0000int) by (nonlinear_arith)
            requires self.limb3 <= 0xffff_ffff_ffff_ffffu64;
    }

    /// The value zero.
    pub fn zero() -> (r: Self)
        ensures
            r.value() == 0,
    {
        Uint256 { limb0: 0, limb1: 0, limb2: 0, limb3: 0 }
    }

    /// Embeds a 64-bit value.
    pub fn from_u64(n: u64) -> (r: Self)
        ensures
            r.value() == n,
    {
        Uint256 { limb0: n, limb1: 0, limb2: 0, limb3: 0 }
    }

    /// Whether this is the null (zero) value.
    pub fn is_zero(&self) -> (r: bool)
        ensures
            r <==> self.value() == 0,
    {
        proof {
            if self.limb1 >= 1 {
                assert(self.limb1 * 0x1_0000_0000_0000_0000int >= 0x1_0000_0000_0000_0000int)
                    by (nonlinear_arith)
                    requires self.limb1 >= 1;
            }
            if self.limb2 >= 1 {
                assert(self.limb2 * 0x1_0000_0000_0000_0000_0000_0000_0000_0000int
                    >= 0x1_0000_0000_0000_0000_0000_0000_0000_0000int) by (nonlinear_arith)
                    requires self.limb2 >= 1;
            }
            if self.limb3 >= 1 {
                assert(self.limb3
                    * 0x1_0000_0000_0000_0000_0000_0000_0000_0000_0000_0000_0000_0000int
                    >= 0x1_0000_0000_0000_0000_0000_0000_0000_0000_0000_0000_0000_0000int)
                    by (nonlinear_arith)
                    requires self.limb3 >= 1;
            }
        }
        self.limb0 == 0 && self.limb1 == 0 && self.limb2 == 0 && self.limb3 == 0
    }

    /// The successor under saturation: one more, except that the largest
    /// representable value stays itself.
    pub open spec fn spec_succ(self) -> Uint256 {
        if self.limb0 < 0xffff_ffff_ffff_ffffu64 {
            Uint256 { limb0: (self.limb0 + 1) as u64, ..self }
        } else if self.limb1 < 0xffff_ffff_ffff_ffffu64 {
            Uint256 { limb0: 0, limb1: (self.limb1 + 1) as u64, ..self }
        } else if self.limb2 < 0xffff_ffff_ffff_ffffu64 {
            Uint256 { limb0: 0, limb1: 0, limb2: (self.limb2 + 1) as u64, ..self }
        } else if self.limb3 < 0xffff_ffff_ffff_ffffu64 {
            Uint256 { limb0: 0, limb1: 0, limb2: 0, limb3: (self.limb3 + 1) as u64 }
        } else {
            self
        }
    }

    /// The saturating successor adds exactly one until the largest value is
    /// reached, and then stands still.
    pub proof fn lemma_succ_value(self)
        ensures
            self.value() < Self::max_value() ==> self.spec_succ().value() == self.value() + 1,
            self.value() == Self::max_value() ==> self.spec_succ() == self,
    {
        self.lemma_value_bounded();
    }

    /// Computes the saturating successor.
    pub fn succ_saturating(self) -> (r: Self)
        ensures
            r == self.spec_succ(),
    {
        if self.limb0 < u64::MAX {
            Uint256 { limb0: self.limb0 + 1, limb1: self.limb1, limb2: self.limb2, limb3: self.limb3 }
        } else if self.limb1 < u64::MAX {
            Uint256 { limb0: 0, limb1: self.limb1 + 1, limb2: self.limb2, limb3: self.limb3 }
        } else if self.limb2 < u64::MAX {
            Uint256 { limb0: 0, limb1: 0, limb2: self.limb2 + 1, limb3: self.limb3 }
        } else if self.limb3 < u64::MAX {
            Uint256 { limb0: 0, limb1: 0, limb2: 0, limb3: self.limb3 + 1 }
        } else {
            self
        }
    }

    /// Whether the value lies below `n`, decided from the limbs.
    pub fn is_below(&self, n: u64) -> (r: bool)
        ensures
            r <==> self.value() < n,
    {
        proof {
            if self.limb1 >= 1 {
                assert(self.limb1 * 0x1_0000_0000_0000_0000int >= 0x1_0000_0000_0000_0000int)
                    by (nonlinear_arith)
                    requires self.limb1 >= 1;
            }
            if self.limb2 >= 1 {
                assert(self.limb2 * 0x1_0000_0000_0000_0000_0000_0000_0000_0000int
                    >= 0x1_0000_0000_0000_0000_0000_0000_0000_0000int) by (nonlinear_arith)
                    requires self.limb2 >= 1;
            }
            if self.limb3 >= 1 {
                assert(self.limb3
                    * 0x1_0000_0000_0000_0000_0000_0000_0000_0000_0000_0000_0000_0000int
                    >= 0x1_0000_0000_0000_0000_0000_0000_0000_0000_0000_0000_0000_0000int)
                    by (nonlinear_arith)
                    requires self.limb3 >= 1;
            }
        }
        self.limb1 == 0 && self.limb2 == 0 && self.limb3 == 0 && self.limb0 < n
    }
}

} // verus!
