use vstd::prelude::*;

verus! {

/// Fee policy of one token: a listed token keeps the fraction
/// `commission_numerator / commission_denominator` of each payment,
/// an unlisted one keeps nothing.
#[derive(Debug)]
pub struct Token {
    pub account_id: String,
    pub is_listed: bool,
    pub commission_numerator: u64,
    pub commission_denominator: u64,
}

/// The fee kept on `amount`, rounded down.
pub open spec fn commission_of(t: Token, amount: int) -> int {
    if t.is_listed {
        amount * t.commission_numerator / (t.commission_denominator as int)
    } else {
        0
    }
}

impl Token {
    /// The fraction is a proper one, with a nonzero denominator.
    pub open spec fn wf(&self) -> bool {
        &&& self.commission_denominator > 0
        &&& self.commission_numerator <= self.commission_denominator
    }

    pub fn new_unlisted(account_id: &String) -> (r: Token)
        ensures
            r.wf(),
            r.account_id@ == account_id@,
            !r.is_listed,
    {
        Token {
            account_id: account_id.clone(),
            is_listed: false,
            commission_numerator: 0,
            commission_denominator: 1,
        }
    }

    pub fn new_listed(account_id: &String, numerator: u64, denominator: u64) -> (r: Token)
        requires
            denominator > 0,
            numerator <= denominator,
        ensures
            r.wf(),
            r.account_id@ == account_id@,
            r.is_listed,
            r.commission_numerator == numerator,
            r.commission_denominator == denominator,
    {
        Token {
            account_id: account_id.clone(),
            is_listed: true,
            commission_numerator: numerator,
            commission_denominator: denominator,
        }
    }

    /// Splits `amount` into the part paid out and the fee kept.
    pub fn apply_commission(&self, amount: u128) -> (r: (u128, u128))
        requires
            self.wf(),
        ensures
            r.1 == commission_of(*self, amount as int),
            r.0 + r.1 == amount,
    {
        if !self.is_listed {
            return (amount, 0);
        }
        let num = self.commission_numerator as u128;
        let den = self.commission_denominator as u128;
        let q = amount / den;
        let rem = amount % den;
        proof {
            lemma_split_fraction(amount as int, num as int, den as int);
        }
        let commission = q * num + rem * num / den;
        (amount - commission, commission)
    }
}

proof fn lemma_split_fraction(a: int, n: int, d: int)
    requires
        0 <= a,
        0 <= n <= d,
        0 < d < 0x1_0000_0000_0000_0000,
    ensures
        (a / d) * n <= (a / d) * d,
        (a % d) * n < 0x1_0000_0000_0000_0000_0000_0000_0000_0000,
        (a % d) * n / d <= a % d,
        a * n / d == (a / d) * n + (a % d) * n / d,
        (a / d) * d + a % d == a,
        a / d >= 0,
{
    let q = a / d;
    let r = a % d;
    vstd::arithmetic::div_mod::lemma_fundamental_div_mod(a, d);
    assert(0 <= r < d);
    assert(q * d == d * q) by (nonlinear_arith);
    assert(q >= 0) by {
        vstd::arithmetic::div_mod::lemma_div_pos_is_pos(a, d);
    }
    assert(q * n <= q * d) by (nonlinear_arith)
        requires q >= 0, n <= d;
    assert(r * n < 0x1_0000_0000_0000_0000_0000_0000_0000_0000) by (nonlinear_arith)
        requires 0 <= r < d, 0 <= n <= d, d < 0x1_0000_0000_0000_0000;
    assert(r * n <= r * d) by (nonlinear_arith)
        requires 0 <= r, n <= d;
    assert(r * n / d <= r) by {
        vstd::arithmetic::div_mod::lemma_div_is_ordered(r * n, r * d, d);
        vstd::arithmetic::div_mod::lemma_div_multiples_vanish(r, d);
        assert(r * d == d * r) by (nonlinear_arith);
    }
    assert(a * n == r * n + (q * n) * d) by (nonlinear_arith)
        requires a == d * q + r;
    vstd::arithmetic::div_mod::lemma_hoist_over_denominator(r * n, q * n, d as nat);
}

} // verus!
