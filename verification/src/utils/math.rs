//! Checked arithmetic on token amounts.

use vstd::prelude::*;

use crate::error::{Error, StableFunError};

verus! {

/// Ten to the power `n`.
pub open spec fn pow10(n: nat) -> nat
    decreases n,
{
    if n == 0 {
        1
    } else {
        10 * pow10((n - 1) as nat)
    }
}

/// Powers of ten grow with the exponent.
pub proof fn lemma_pow10_monotonic(i: nat, j: nat)
    requires
        i <= j,
    ensures
        1 <= pow10(i) <= pow10(j),
    decreases j,
{
    if j > 0 {
        if i < j {
            lemma_pow10_monotonic(i, (j - 1) as nat);
        } else {
            lemma_pow10_monotonic((j - 1) as nat, (j - 1) as nat);
        }
    }
}

/// Ten to the nineteenth power is the largest power of ten a `u64` holds.
pub proof fn lemma_pow10_19()
    ensures
        pow10(19) == 10_000_000_000_000_000_000nat,
        pow10(19) <= u64::MAX,
        pow10(20) > u64::MAX,
{
    assert(pow10(0) == 1);
    assert(pow10(1) == 10);
    assert(pow10(2) == 100);
    assert(pow10(3) == 1000);
    assert(pow10(4) == 10000);
    assert(pow10(5) == 100000);
    assert(pow10(6) == 1000000);
    assert(pow10(7) == 10000000);
    assert(pow10(8) == 100000000);
    assert(pow10(9) == 1000000000);
    assert(pow10(10) == 10000000000);
    assert(pow10(11) == 100000000000);
    assert(pow10(12) == 1000000000000);
    assert(pow10(13) == 10000000000000);
    assert(pow10(14) == 100000000000000);
    assert(pow10(15) == 1000000000000000);
    assert(pow10(16) == 10000000000000000);
    assert(pow10(17) == 100000000000000000);
    assert(pow10(18) == 1000000000000000000);
    assert(pow10(19) == 10000000000000000000);
    assert(pow10(20) == 100000000000000000000);
}

/// `10u64.pow(n)`: it overflows (and panics) from `n == 20` on.
pub fn pow10_u64(n: u32) -> (r: u64)
    requires
        n <= 19,
    ensures
        r == pow10(n as nat),
{
    proof {
        lemma_pow10_19();
    }
    let mut r: u64 = 1;
    let mut i: u32 = 0;
    while i < n
        invariant
            i <= n <= 19,
            r == pow10(i as nat),
            pow10(19) <= u64::MAX,
        decreases n - i,
    {
        proof {
            lemma_pow10_monotonic((i + 1) as nat, 19);
            assert(pow10((i + 1) as nat) == 10 * pow10(i as nat));
        }
        r = r * 10;
        i = i + 1;
    }
    r
}

/// `a * b`, or `MathOverflow` where it does not fit in a `u64`.
pub fn checked_mul(a: u64, b: u64) -> (r: Result<u64, Error>)
    ensures
        a * b <= u64::MAX ==> r == Ok::<u64, Error>((a * b) as u64),
        a * b > u64::MAX ==> r == Err::<u64, Error>(Error::StableFun(StableFunError::MathOverflow)),
{
    match a.checked_mul(b) {
        Some(v) => Ok(v),
        None => Err(Error::StableFun(StableFunError::MathOverflow)),
    }
}

/// `a / b`, or `MathOverflow` where `b` is zero.
pub fn checked_div(a: u64, b: u64) -> (r: Result<u64, Error>)
    ensures
        b != 0 ==> r == Ok::<u64, Error>(a / b),
        b == 0 ==> r == Err::<u64, Error>(Error::StableFun(StableFunError::MathOverflow)),
{
    match a.checked_div(b) {
        Some(v) => Ok(v),
        None => Err(Error::StableFun(StableFunError::MathOverflow)),
    }
}

/// The value of `amount` tokens at `price`, with `decimals` decimal places
/// removed: `amount * price / 10^decimals`, or `MathOverflow` where the
/// product does not fit in a `u64`. The power of ten is only computed when
/// the product fits, and overflows (panics) for 20 decimals or more there.
pub fn calculate_token_amount(amount: u64, price: u64, decimals: u8) -> (r: Result<u64, Error>)
    requires
        amount * price <= u64::MAX ==> decimals <= 19,
    ensures
        amount * price <= u64::MAX ==> r == Ok::<u64, Error>(
            ((amount * price) / (pow10(decimals as nat) as int)) as u64,
        ),
        amount * price > u64::MAX ==> r == Err::<u64, Error>(
            Error::StableFun(StableFunError::MathOverflow),
        ),
{
    match amount.checked_mul(price) {
        Some(v) => {
            let scale = pow10_u64(decimals as u32);
            proof {
                lemma_pow10_monotonic(0, decimals as nat);
            }
            Ok(v / scale)
        },
        None => Err(Error::StableFun(StableFunError::MathOverflow)),
    }
}

} // verus!
