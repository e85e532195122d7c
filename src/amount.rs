//! Amount scaling between a token's own decimal count and the fixed
//! eight-decimal precision that the bridge carries on the wire.
use vstd::arithmetic::div_mod::{lemma_div_denominator, lemma_fundamental_div_mod, lemma_mod_bound};
use vstd::prelude::*;

verus! {

/// Decimal places that the bridge keeps for every amount it carries.
pub const BRIDGE_DECIMALS: u8 = 8;

/// Ten to the power `n`.
pub open spec fn pow10(n: nat) -> nat
    decreases n,
{
    if n == 0 {
        1
    } else {
        10 * pow10((n - 1) as nat)
    }
}

/// How many decimals of a token lie beyond the bridge's eight.
pub open spec fn excess_decimals(decimals: u8) -> nat {
    if decimals > BRIDGE_DECIMALS {
        (decimals - BRIDGE_DECIMALS) as nat
    } else {
        0
    }
}

/// An amount of a token scaled down to eight decimals (rounding down).
pub open spec fn normalized(amount: u64, decimals: u8) -> nat {
    amount as nat / pow10(excess_decimals(decimals))
}

/// An eight-decimal amount scaled back up to the token's own decimals.
pub open spec fn denormalized(amount: u64, decimals: u8) -> nat {
    amount as nat * pow10(excess_decimals(decimals))
}

/// The part of an amount that survives the bridge's eight-decimal cap.
pub open spec fn truncated(amount: u64, decimals: u8) -> nat {
    normalized(amount, decimals) * pow10(excess_decimals(decimals))
}

pub proof fn lemma_pow10_positive(n: nat)
    ensures
        pow10(n) >= 1,
    decreases n,
{
    if n > 0 {
        lemma_pow10_positive((n - 1) as nat);
    }
}

pub proof fn lemma_pow10_monotone(m: nat, n: nat)
    requires
        m <= n,
    ensures
        pow10(m) <= pow10(n),
    decreases n,
{
    if m < n {
        lemma_pow10_monotone(m, (n - 1) as nat);
        lemma_pow10_positive((n - 1) as nat);
    }
}

/// `x * 10^n`, or `None` where that does not fit in 128 bits.
pub fn checked_mul_pow10(x: u128, n: u8) -> (r: Option<u128>)
    ensures
        r == (if x * pow10(n as nat) <= u128::MAX {
            Some((x * pow10(n as nat)) as u128)
        } else {
            None::<u128>
        }),
{
    let mut acc: u128 = x;
    let mut i: u8 = 0;
    assert(pow10(0) == 1);
    assert(x * 1 == x);
    while i < n
        invariant
            i <= n,
            acc as nat == x * pow10(i as nat),
        decreases n - i,
    {
        let ghost p = pow10(i as nat);
        assert(x * pow10((i + 1) as nat) == (x * p) * 10) by (nonlinear_arith)
            requires
                pow10((i + 1) as nat) == 10 * p,
        ;
        match acc.checked_mul(10) {
            Some(v) => {
                acc = v;
                i = i + 1;
            },
            None => {
                proof {
                    lemma_pow10_monotone((i + 1) as nat, n as nat);
                    let q = pow10((i + 1) as nat);
                    let qn = pow10(n as nat);
                    assert(x * q <= x * qn) by (nonlinear_arith)
                        requires
                            q <= qn,
                    ;
                }
                return None;
            },
        }
    }
    Some(acc)
}

/// Scales an amount down to the bridge's eight decimals, dropping the
/// digits beyond them.
pub fn normalize_amount(amount: u64, decimals: u8) -> (r: u64)
    ensures
        r == normalized(amount, decimals),
{
    assert(pow10(0) == 1);
    assert(amount as nat / 1 == amount) by (nonlinear_arith);
    if decimals <= BRIDGE_DECIMALS {
        return amount;
    }
    let k: u8 = decimals - BRIDGE_DECIMALS;
    let mut acc: u64 = amount;
    let mut i: u8 = 0;
    while i < k
        invariant
            i <= k,
            k as nat == excess_decimals(decimals),
            acc as nat == amount as nat / pow10(i as nat),
        decreases k - i,
    {
        proof {
            lemma_pow10_positive(i as nat);
            lemma_div_denominator(amount as int, pow10(i as nat) as int, 10);
        }
        acc = acc / 10;
        i = i + 1;
    }
    acc
}

/// Scales an eight-decimal amount back up to the token's decimals, or
/// `None` where the result does not fit in 64 bits.
pub fn denormalize_amount(amount: u64, decimals: u8) -> (r: Option<u64>)
    ensures
        r == (if denormalized(amount, decimals) <= u64::MAX {
            Some(denormalized(amount, decimals) as u64)
        } else {
            None::<u64>
        }),
{
    if decimals <= BRIDGE_DECIMALS {
        assert(pow10(0) == 1);
        assert(amount as nat * 1 == amount);
        return Some(amount);
    }
    match checked_mul_pow10(amount as u128, decimals - BRIDGE_DECIMALS) {
        Some(v) => {
            if v <= u64::MAX as u128 {
                Some(v as u64)
            } else {
                None
            }
        },
        None => None,
    }
}

/// The amount that the bridge actually moves: the request with the digits
/// beyond eight decimals set to zero.
pub fn truncate_amount(amount: u64, decimals: u8) -> (r: u64)
    ensures
        r == truncated(amount, decimals),
        r <= amount,
{
    let n = normalize_amount(amount, decimals);
    proof {
        let p = pow10(excess_decimals(decimals)) as int;
        lemma_pow10_positive(excess_decimals(decimals));
        lemma_fundamental_div_mod(amount as int, p);
        lemma_mod_bound(amount as int, p);
        assert(n * p <= amount) by (nonlinear_arith)
            requires
                amount == p * n + amount as int % p,
                amount as int % p >= 0,
        ;
    }
    match denormalize_amount(n, decimals) {
        Some(v) => v,
        None => 0,
    }
}

} // verus!
