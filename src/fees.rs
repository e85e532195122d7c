//! Fixed-point arithmetic of the relayer fee and of the native swap. Every
//! step is checked: an overflow or a zero divisor gives `None`.
use crate::amount::{checked_mul_pow10, lemma_pow10_positive, pow10};
use crate::state::{RegisteredToken, RelayerFee, NATIVE_DECIMALS};
use vstd::arithmetic::div_mod::{
    lemma_div_by_multiple_is_strongly_ordered, lemma_div_denominator, lemma_div_is_ordered,
    lemma_div_is_ordered_by_denominator,
    lemma_div_multiples_vanish, lemma_fundamental_div_mod, lemma_mod_bound,
};
use vstd::prelude::*;

verus! {

/// The relayer fee in units of a token:
/// `fee * swap_rate_precision * 10^decimals / (swap_rate * relayer_fee_precision)`,
/// rounded down, where the numerator fits in 128 bits, the divisor is not
/// zero and the result fits in 64 bits.
pub open spec fn token_fee_value(
    fee: u64,
    decimals: u8,
    swap_rate: u64,
    swap_rate_precision: u32,
    relayer_fee_precision: u32,
) -> Option<u64> {
    let num = fee as nat * swap_rate_precision as nat * pow10(decimals as nat);
    let den = swap_rate as nat * relayer_fee_precision as nat;
    if num > u128::MAX || den == 0 || num / den > u64::MAX {
        None
    } else {
        Some((num / den) as u64)
    }
}

/// Price of the native gas asset in units of the token's rate, scaled by
/// the swap-rate precision: `swap_rate_precision * native_swap_rate / swap_rate`.
pub open spec fn native_price_in_token(
    swap_rate: u64,
    native_swap_rate: u64,
    swap_rate_precision: u32,
) -> nat {
    (swap_rate_precision as nat * native_swap_rate as nat) / swap_rate as nat
}

/// Native gas units bought with `amount` token units, before any cap:
/// `amount * swap_rate_precision * 10^9 / (price * 10^decimals)`.
pub open spec fn native_out_value(amount: u64, swap_rate_precision: u32, den: nat) -> nat {
    (amount as nat * swap_rate_precision as nat * pow10(NATIVE_DECIMALS as nat)) / den
}

/// Token units that buy `native` gas units:
/// `native * price * 10^decimals / (swap_rate_precision * 10^9)`.
pub open spec fn token_in_value(native: u64, swap_rate_precision: u32, den: nat) -> nat {
    (native as nat * den) / (swap_rate_precision as nat * pow10(NATIVE_DECIMALS as nat))
}

/// The split of a requested native swap into `(token units consumed,
/// native units paid out)`. No request consumes nothing. Otherwise the
/// request buys native units at the ratio of the two USD rates; where that
/// exceeds the token's maximum, the maximum is paid out and only the tokens
/// that buy it are consumed.
pub open spec fn native_swap_value(
    token: RegisteredToken,
    decimals: u8,
    native_swap_rate: u64,
    swap_rate_precision: u32,
    to_native_token_amount: u64,
) -> Option<(u64, u64)> {
    if to_native_token_amount == 0 {
        Some((0, 0))
    } else if token.swap_rate == 0 {
        None
    } else {
        let price = native_price_in_token(token.swap_rate, native_swap_rate, swap_rate_precision);
        let den = price * pow10(decimals as nat);
        if price == 0 || den > u128::MAX {
            None
        } else {
            let out = native_out_value(to_native_token_amount, swap_rate_precision, den);
            if out <= token.max_native_swap_amount {
                Some((to_native_token_amount, out as u64))
            } else if token.max_native_swap_amount as nat * den > u128::MAX {
                None
            } else {
                Some(
                    (
                        token_in_value(token.max_native_swap_amount, swap_rate_precision, den) as u64,
                        token.max_native_swap_amount,
                    ),
                )
            }
        }
    }
}

proof fn lemma_native_scale()
    ensures
        pow10(NATIVE_DECIMALS as nat) == 1_000_000_000,
{
    reveal_with_fuel(pow10, 10);
}

/// A higher USD fee never gives a lower fee in token units.
pub proof fn lemma_token_fee_monotone_in_fee(
    fee1: u64,
    fee2: u64,
    decimals: u8,
    swap_rate: u64,
    swap_rate_precision: u32,
    relayer_fee_precision: u32,
)
    requires
        fee1 <= fee2,
        token_fee_value(fee1, decimals, swap_rate, swap_rate_precision, relayer_fee_precision)
            is Some,
        token_fee_value(fee2, decimals, swap_rate, swap_rate_precision, relayer_fee_precision)
            is Some,
    ensures
        token_fee_value(fee1, decimals, swap_rate, swap_rate_precision, relayer_fee_precision)->0
            <= token_fee_value(
            fee2,
            decimals,
            swap_rate,
            swap_rate_precision,
            relayer_fee_precision,
        )->0,
{
    let p = pow10(decimals as nat);
    let s = swap_rate_precision as nat;
    let n1 = fee1 as nat * s * p;
    let n2 = fee2 as nat * s * p;
    assert(n1 <= n2) by (nonlinear_arith)
        requires
            fee1 <= fee2,
            n1 == fee1 as nat * s * p,
            n2 == fee2 as nat * s * p,
    ;
    lemma_div_is_ordered(
        n1 as int,
        n2 as int,
        (swap_rate as nat * relayer_fee_precision as nat) as int,
    );
}

/// A higher swap rate (a dearer token) never gives a higher fee in token
/// units.
pub proof fn lemma_token_fee_antitone_in_rate(
    fee: u64,
    decimals: u8,
    rate1: u64,
    rate2: u64,
    swap_rate_precision: u32,
    relayer_fee_precision: u32,
)
    requires
        rate1 <= rate2,
        token_fee_value(fee, decimals, rate1, swap_rate_precision, relayer_fee_precision) is Some,
        token_fee_value(fee, decimals, rate2, swap_rate_precision, relayer_fee_precision) is Some,
    ensures
        token_fee_value(fee, decimals, rate2, swap_rate_precision, relayer_fee_precision)->0
            <= token_fee_value(
            fee,
            decimals,
            rate1,
            swap_rate_precision,
            relayer_fee_precision,
        )->0,
{
    let q = relayer_fee_precision as nat;
    let d1 = rate1 as nat * q;
    let d2 = rate2 as nat * q;
    assert(d1 <= d2) by (nonlinear_arith)
        requires
            rate1 <= rate2,
            d1 == rate1 as nat * q,
            d2 == rate2 as nat * q,
    ;
    lemma_div_is_ordered_by_denominator(
        (fee as nat * swap_rate_precision as nat * pow10(decimals as nat)) as int,
        d1 as int,
        d2 as int,
    );
}

/// Doubling the swap rate halves the fee in token units, rounded down.
pub proof fn lemma_token_fee_double_rate(
    fee: u64,
    decimals: u8,
    swap_rate: u64,
    swap_rate_precision: u32,
    relayer_fee_precision: u32,
)
    requires
        2 * swap_rate <= u64::MAX,
        token_fee_value(fee, decimals, swap_rate, swap_rate_precision, relayer_fee_precision)
            is Some,
    ensures
        token_fee_value(
            fee,
            decimals,
            (2 * swap_rate) as u64,
            swap_rate_precision,
            relayer_fee_precision,
        ) == Some(
            (token_fee_value(
                fee,
                decimals,
                swap_rate,
                swap_rate_precision,
                relayer_fee_precision,
            )->0 / 2) as u64,
        ),
{
    let num = fee as nat * swap_rate_precision as nat * pow10(decimals as nat);
    let d1 = swap_rate as nat * relayer_fee_precision as nat;
    let d2 = (2 * swap_rate) as nat * relayer_fee_precision as nat;
    assert(d2 == d1 * 2) by (nonlinear_arith)
        requires
            d1 == swap_rate as nat * relayer_fee_precision as nat,
            d2 == (2 * swap_rate) as nat * relayer_fee_precision as nat,
    ;
    lemma_div_denominator(num as int, d1 as int, 2);
}

impl RelayerFee {
    /// This chain's relayer fee expressed in units of a token.
    pub fn checked_token_fee(
        &self,
        decimals: u8,
        swap_rate: u64,
        swap_rate_precision: u32,
        relayer_fee_precision: u32,
    ) -> (r: Option<u64>)
        ensures
            r == token_fee_value(
                self.fee,
                decimals,
                swap_rate,
                swap_rate_precision,
                relayer_fee_precision,
            ),
    {
        assert(self.fee as nat * swap_rate_precision as nat <= u64::MAX as nat * u32::MAX as nat)
            by (nonlinear_arith);
        let base: u128 = self.fee as u128 * swap_rate_precision as u128;
        let num = match checked_mul_pow10(base, decimals) {
            Some(n) => n,
            None => {
                return None;
            },
        };
        assert(swap_rate as nat * relayer_fee_precision as nat <= u64::MAX as nat * u32::MAX as nat)
            by (nonlinear_arith);
        let den: u128 = swap_rate as u128 * relayer_fee_precision as u128;
        if den == 0 {
            return None;
        }
        let q: u128 = num / den;
        if q > u64::MAX as u128 {
            None
        } else {
            Some(q as u64)
        }
    }
}

impl RegisteredToken {
    /// Splits a requested native swap into the token units it consumes and
    /// the native gas units it pays out, capped by this token's maximum.
    pub fn calculate_native_swap_amounts(
        &self,
        decimals: u8,
        native_swap_rate: u64,
        swap_rate_precision: u32,
        to_native_token_amount: u64,
    ) -> (r: Option<(u64, u64)>)
        ensures
            r == native_swap_value(
                *self,
                decimals,
                native_swap_rate,
                swap_rate_precision,
                to_native_token_amount,
            ),
            r matches Some((token_in, native_out)) ==> token_in <= to_native_token_amount
                && native_out <= self.max_native_swap_amount,
    {
        if to_native_token_amount == 0 {
            return Some((0, 0));
        }
        if self.swap_rate == 0 {
            return None;
        }
        proof {
            lemma_native_scale();
        }
        assert(swap_rate_precision as nat * native_swap_rate as nat <= u32::MAX as nat
            * u64::MAX as nat) by (nonlinear_arith);
        let price: u128 = (swap_rate_precision as u128 * native_swap_rate as u128)
            / self.swap_rate as u128;
        if price == 0 {
            return None;
        }
        let den = match checked_mul_pow10(price, decimals) {
            Some(d) => d,
            None => {
                return None;
            },
        };
        proof {
            lemma_pow10_positive(decimals as nat);
            assert(den > 0) by (nonlinear_arith)
                requires
                    den == price * pow10(decimals as nat),
                    price > 0,
                    pow10(decimals as nat) >= 1,
            ;
        }
        let scale: u128 = 1_000_000_000;
        let c: u128 = swap_rate_precision as u128 * scale;
        assert(to_native_token_amount as nat * c <= u64::MAX as nat * (u32::MAX as nat
            * 1_000_000_000)) by (nonlinear_arith)
            requires
                c <= u32::MAX as nat * 1_000_000_000,
        ;
        let num_out: u128 = to_native_token_amount as u128 * c;
        let out: u128 = num_out / den;
        assert(num_out == to_native_token_amount as nat * swap_rate_precision as nat * pow10(
            NATIVE_DECIMALS as nat,
        )) by (nonlinear_arith)
            requires
                num_out == to_native_token_amount * c,
                c == swap_rate_precision * 1_000_000_000,
                pow10(NATIVE_DECIMALS as nat) == 1_000_000_000,
        ;
        if out <= self.max_native_swap_amount as u128 {
            return Some((to_native_token_amount, out as u64));
        }
        let num_in = match (self.max_native_swap_amount as u128).checked_mul(den) {
            Some(n) => n,
            None => {
                return None;
            },
        };
        assert(c > 0) by (nonlinear_arith)
            requires
                c == swap_rate_precision * 1_000_000_000,
                price > 0,
                price == (swap_rate_precision as nat * native_swap_rate as nat)
                    / self.swap_rate as nat,
                self.swap_rate > 0,
        ;
        let token_in: u128 = num_in / c;
        proof {
            let m = self.max_native_swap_amount as int;
            lemma_fundamental_div_mod(num_out as int, den as int);
            lemma_mod_bound(num_out as int, den as int);
            assert(num_in < num_out) by (nonlinear_arith)
                requires
                    num_out == den * out + num_out % den,
                    num_out % den >= 0,
                    out >= m + 1,
                    num_in == m * den,
                    den > 0,
            ;
            lemma_div_by_multiple_is_strongly_ordered(
                num_in as int,
                num_out as int,
                to_native_token_amount as int,
                c as int,
            );
            lemma_div_multiples_vanish(to_native_token_amount as int, c as int);
            assert(c * to_native_token_amount == to_native_token_amount * c) by (nonlinear_arith);
        }
        Some((token_in as u64, self.max_native_swap_amount))
    }
}

} // verus!
