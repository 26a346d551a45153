use vstd::prelude::*;

use crate::error::MultisigError;

verus! {

/// A ratio `numerator / denominator` that a weighted vote must meet or exceed.
#[derive(Debug, Clone, Copy)]
pub struct FractionalThreshold {
    pub numerator: u32,
    pub denominator: u32,
}

impl FractionalThreshold {
    /// A usable threshold: strictly between zero and one.
    pub open spec fn valid(self) -> bool {
        0 < self.numerator < self.denominator
    }

    /// `n / d >= numerator / denominator`, by cross-multiplication.
    pub open spec fn met_by(self, n: int, d: int) -> bool {
        n * self.denominator >= d * self.numerator
    }

    /// When comparing `n / d` against this threshold cannot be done in 64 bits.
    pub open spec fn compare_fails(self, n: u64, d: u64) -> bool {
        ||| self.denominator == 0
        ||| d == 0
        ||| n * self.denominator > u64::MAX
        ||| d * self.numerator > u64::MAX
    }

    /// The counter-threshold `1 - self`.
    pub open spec fn complement(self) -> FractionalThreshold {
        FractionalThreshold {
            numerator: (self.denominator - self.numerator) as u32,
            denominator: self.denominator,
        }
    }

    /// What `normalize_other` makes of `counter`.
    pub open spec fn normalized(self, counter: FractionalThreshold) -> FractionalThreshold {
        if self.met_by(counter.numerator as int, counter.denominator as int) {
            self.complement()
        } else {
            counter
        }
    }

    /// Whether this threshold's ratio is at least the ratio of `other`.
    pub open spec fn at_least(self, other: FractionalThreshold) -> bool {
        self.numerator * other.denominator >= other.numerator * self.denominator
    }

    /// A threshold taken as it comes, valid or not; see `is_valid`.
    pub fn from_unchecked(numerator: u32, denominator: u32) -> (r: FractionalThreshold)
        ensures
            r.numerator == numerator,
            r.denominator == denominator,
    {
        FractionalThreshold { numerator, denominator }
    }

    pub fn is_valid(&self) -> (r: Result<(), MultisigError>)
        ensures
            r is Ok <==> self.valid(),
            r is Err ==> r == Err::<(), MultisigError>(MultisigError::InvalidThreshold),
    {
        if self.denominator == 0 || self.numerator >= self.denominator || self.numerator == 0 {
            return Err(MultisigError::InvalidThreshold);
        }
        Ok(())
    }

    pub fn new_from_values(numerator: u32, denominator: u32) -> (r: Result<
        FractionalThreshold,
        MultisigError,
    >)
        ensures
            r is Ok <==> 0 < numerator < denominator,
            r matches Ok(t) ==> t.numerator == numerator && t.denominator == denominator
                && t.valid(),
            r is Err ==> r == Err::<FractionalThreshold, MultisigError>(
                MultisigError::InvalidThreshold,
            ),
    {
        if denominator == 0 || numerator >= denominator || numerator == 0 {
            return Err(MultisigError::InvalidThreshold);
        }
        Ok(FractionalThreshold { numerator, denominator })
    }

    pub fn numerator(&self) -> (r: u32)
        ensures
            r == self.numerator,
    {
        self.numerator
    }

    pub fn denominator(&self) -> (r: u32)
        ensures
            r == self.denominator,
    {
        self.denominator
    }

    /// Whether `numerator / denominator` meets or exceeds this threshold.
    pub fn greater_than_or_equal(&self, numerator: u64, denominator: u64) -> (r: Result<
        bool,
        MultisigError,
    >)
        ensures
            self.compare_fails(numerator, denominator) ==> r == Err::<bool, MultisigError>(
                MultisigError::ArithmeticOverflow,
            ),
            !self.compare_fails(numerator, denominator) ==> r == Ok::<bool, MultisigError>(
                self.met_by(numerator as int, denominator as int),
            ),
    {
        if self.denominator == 0 || denominator == 0 {
            return Err(MultisigError::ArithmeticOverflow);
        }
        let lhs = match numerator.checked_mul(self.denominator as u64) {
            Some(v) => v,
            None => return Err(MultisigError::ArithmeticOverflow),
        };
        let rhs = match denominator.checked_mul(self.numerator as u64) {
            Some(v) => v,
            None => return Err(MultisigError::ArithmeticOverflow),
        };
        Ok(lhs >= rhs)
    }

    /// The same comparison read from the threshold's side: this threshold is at
    /// most `numerator / denominator`.
    pub fn less_than_or_equal(&self, numerator: u64, denominator: u64) -> (r: Result<
        bool,
        MultisigError,
    >)
        ensures
            self.compare_fails(numerator, denominator) ==> r == Err::<bool, MultisigError>(
                MultisigError::ArithmeticOverflow,
            ),
            !self.compare_fails(numerator, denominator) ==> r == Ok::<bool, MultisigError>(
                self.met_by(numerator as int, denominator as int),
            ),
    {
        self.greater_than_or_equal(numerator, denominator)
    }

    /// Keeps a counter-threshold from being reachable together with this one:
    /// where `counter`'s own ratio already meets this threshold, `counter`
    /// becomes `1 - self`.
    pub fn normalize_other(&self, counter: &mut FractionalThreshold) -> (r: Result<
        (),
        MultisigError,
    >)
        requires
            self.valid(),
            old(counter).valid(),
        ensures
            r is Ok,
            *final(counter) == self.normalized(*old(counter)),
            final(counter).valid(),
    {
        let n = counter.numerator as u64;
        let d = counter.denominator as u64;
        proof {
            lemma_u32_products_fit(n, self.denominator as u64);
            lemma_u32_products_fit(d, self.numerator as u64);
        }
        let meets = self.greater_than_or_equal(n, d)?;
        if meets {
            *counter = FractionalThreshold {
                numerator: self.denominator - self.numerator,
                denominator: self.denominator,
            };
        }
        Ok(())
    }
}

/// Two 32-bit values multiply without leaving 64 bits.
pub proof fn lemma_u32_products_fit(a: u64, b: u64)
    requires
        a <= u32::MAX,
        b <= u32::MAX,
    ensures
        a * b <= u64::MAX,
{
    assert(a * b <= u32::MAX * u32::MAX) by (nonlinear_arith)
        requires
            a <= u32::MAX,
            b <= u32::MAX,
    ;
}

} // verus!
