use vstd::prelude::*;
use vstd::arithmetic::mul::{lemma_mul_inequality, lemma_mul_is_distributive_add_other_way};

verus! {

/// `10^n`.
pub open spec fn pow10(n: nat) -> nat
    decreases n,
{
    if n == 0 {
        1
    } else {
        10 * pow10((n - 1) as nat)
    }
}

/// The number written by a sequence of decimal digits, most significant first.
pub open spec fn digits_val(s: Seq<u8>) -> nat
    decreases s.len(),
{
    if s.len() == 0 {
        0
    } else {
        digits_val(s.drop_last()) * 10 + s.last() as nat
    }
}

/// Every element is a decimal digit value (0 through 9).
pub open spec fn all_digits(s: Seq<u8>) -> bool {
    forall|i: int| 0 <= i < s.len() ==> s[i] <= 9
}

/// One temperature reading, held exactly as scraped: a sign, an integer
/// part, and the digits after the decimal separator.  The value it
/// denotes is `(-1)^negative * (units + digits/10^digits.len())`.
#[derive(Clone, Debug, PartialEq, Eq)]
pub struct Reading {
    pub negative: bool,
    pub units: u64,
    pub frac: Vec<u8>,
}

impl Reading {
    pub open spec fn wf(self) -> bool {
        all_digits(self.frac@)
    }

    /// Numerator of the reading over the denominator `10^frac.len()`.
    pub open spec fn value_num(self) -> int {
        let mag = self.units * pow10(self.frac@.len()) + digits_val(self.frac@);
        if self.negative {
            -(mag as int)
        } else {
            mag as int
        }
    }

    /// The reading's value is at most the integer `n`.
    pub open spec fn le_int(self, n: int) -> bool {
        self.value_num() <= n * pow10(self.frac@.len())
    }

    /// The reading's value is at least the integer `n`.
    pub open spec fn ge_int(self, n: int) -> bool {
        self.value_num() >= n * pow10(self.frac@.len())
    }

    /// Whether the reading's value is at most the whole number `n`.
    pub fn is_le_nat(&self, n: u64) -> (r: bool)
        requires
            self.wf(),
        ensures
            r == self.le_int(n as int),
    {
        proof {
            lemma_pow10_pos(self.frac@.len());
            lemma_digits_val_bound(self.frac@);
        }
        if self.negative {
            proof {
                lemma_mul_inequality(0, n as int, pow10(self.frac@.len()) as int);
            }
            true
        } else if self.units < n {
            proof {
                lemma_step_bound(self.units as nat, n as nat, self.frac@);
            }
            true
        } else if self.units == n {
            let all_zero = frac_is_zero(&self.frac);
            proof {
                if all_zero {
                    lemma_digits_val_zero(self.frac@);
                } else {
                    lemma_digits_val_nonzero(self.frac@);
                }
            }
            all_zero
        } else {
            proof {
                lemma_mul_inequality(n as int + 1, self.units as int, pow10(
                    self.frac@.len(),
                ) as int);
                lemma_mul_is_distributive_add_other_way(
                    pow10(self.frac@.len()) as int,
                    n as int,
                    1,
                );
            }
            false
        }
    }

    /// Whether the reading's value is at least the whole number `n >= 1`.
    pub fn is_ge_nat(&self, n: u64) -> (r: bool)
        requires
            self.wf(),
            n >= 1,
        ensures
            r == self.ge_int(n as int),
    {
        proof {
            lemma_pow10_pos(self.frac@.len());
            lemma_digits_val_bound(self.frac@);
        }
        if self.negative {
            proof {
                lemma_mul_inequality(1, n as int, pow10(self.frac@.len()) as int);
            }
            false
        } else if self.units >= n {
            proof {
                lemma_mul_inequality(n as int, self.units as int, pow10(
                    self.frac@.len(),
                ) as int);
            }
            true
        } else {
            proof {
                lemma_step_bound(self.units as nat, n as nat, self.frac@);
            }
            false
        }
    }
}

/// `10^n` is positive.
pub proof fn lemma_pow10_pos(n: nat)
    ensures
        pow10(n) >= 1,
    decreases n,
{
    if n > 0 {
        lemma_pow10_pos((n - 1) as nat);
    }
}

/// A sequence of decimal digits denotes a number below `10^len`.
pub proof fn lemma_digits_val_bound(s: Seq<u8>)
    requires
        all_digits(s),
    ensures
        digits_val(s) < pow10(s.len()),
    decreases s.len(),
{
    if s.len() > 0 {
        assert(all_digits(s.drop_last()));
        lemma_digits_val_bound(s.drop_last());
        assert(s.last() <= 9);
    }
}

/// A sequence of zero digits denotes zero.
proof fn lemma_digits_val_zero(s: Seq<u8>)
    requires
        forall|i: int| 0 <= i < s.len() ==> s[i] == 0,
    ensures
        digits_val(s) == 0,
    decreases s.len(),
{
    if s.len() > 0 {
        assert(forall|i: int| 0 <= i < s.drop_last().len() ==> s.drop_last()[i] == 0);
        lemma_digits_val_zero(s.drop_last());
        assert(s.last() == 0);
    }
}

/// A sequence of digits that are not all zero denotes a positive number.
proof fn lemma_digits_val_nonzero(s: Seq<u8>)
    requires
        !(forall|i: int| 0 <= i < s.len() ==> s[i] == 0),
    ensures
        digits_val(s) > 0,
    decreases s.len(),
{
    let j = choose|i: int| 0 <= i < s.len() && s[i] != 0;
    if j == s.len() - 1 {
        assert(s.last() != 0);
    } else {
        assert(s.drop_last()[j] != 0);
        lemma_digits_val_nonzero(s.drop_last());
    }
}

/// If `u < n`, the reading `u.frac` lies strictly below the whole number `n`.
proof fn lemma_step_bound(u: nat, n: nat, frac: Seq<u8>)
    requires
        u < n,
        all_digits(frac),
    ensures
        u * pow10(frac.len()) + digits_val(frac) < n * pow10(frac.len()),
{
    let p = pow10(frac.len()) as int;
    lemma_pow10_pos(frac.len());
    lemma_digits_val_bound(frac);
    lemma_mul_inequality(u as int + 1, n as int, p);
    lemma_mul_is_distributive_add_other_way(p, u as int, 1);
}

/// Whether every fraction digit is zero.
fn frac_is_zero(frac: &Vec<u8>) -> (r: bool)
    ensures
        r == (forall|i: int| 0 <= i < frac@.len() ==> frac@[i] == 0),
{
    let mut k: usize = 0;
    while k < frac.len()
        invariant
            k <= frac@.len(),
            forall|i: int| 0 <= i < k ==> frac@[i] == 0,
        decreases frac@.len() - k,
    {
        if frac[k] != 0 {
            return false;
        }
        k += 1;
    }
    true
}

} // verus!
