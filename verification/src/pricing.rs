use vstd::prelude::*;

use crate::error::IcoError;

verus! {

/// Ten to the power `n`.
pub open spec fn pow10(n: nat) -> nat
    decreases n,
{
    if n == 0 {
        1
    } else {
        10 * pow10((n - 1) as nat)
    }
}

/// What `amount` of the settlement currency buys, in base units of a token
/// with `decimals` decimal places that costs `price` per whole token:
/// `amount * 10^decimals / price`, rounded down.  A product beyond the range
/// of the amounts is refused before a zero price is.
pub open spec fn token_units(amount: u64, decimals: u8, price: u64) -> Result<u64, IcoError> {
    if amount * pow10(decimals as nat) > u64::MAX {
        Err(IcoError::MathOverflow)
    } else if price == 0 {
        Err(IcoError::InvalidPrice)
    } else {
        Ok((amount * pow10(decimals as nat) / (price as int)) as u64)
    }
}

/// Powers of ten grow with the exponent, and none is zero.
pub proof fn lemma_pow10_grows(m: nat, n: nat)
    requires
        m <= n,
    ensures
        1 <= pow10(m) <= pow10(n),
    decreases n,
{
    if n == 0 {
    } else if m == n {
        lemma_pow10_grows(0, (n - 1) as nat);
    } else {
        lemma_pow10_grows(m, (n - 1) as nat);
    }
}

/// `10^decimals`, or `None` when it is beyond the range of the amounts.
pub fn checked_pow10(decimals: u8) -> (r: Option<u64>)
    ensures
        r matches Some(scale) ==> scale == pow10(decimals as nat),
        r is None <==> pow10(decimals as nat) > u64::MAX,
{
    let mut scale: u64 = 1;
    let mut i: u8 = 0;
    while i < decimals
        invariant
            i <= decimals,
            scale == pow10(i as nat),
        decreases decimals - i,
    {
        match scale.checked_mul(10) {
            Some(next) => {
                scale = next;
            },
            None => {
                proof {
                    lemma_pow10_grows((i + 1) as nat, decimals as nat);
                }
                return None;
            },
        }
        i += 1;
    }
    Some(scale)
}

/// Computes `token_units`: the token base units that `amount` buys.
pub fn tokens_for(amount: u64, decimals: u8, price: u64) -> (r: Result<u64, IcoError>)
    ensures
        r == token_units(amount, decimals, price),
        r matches Ok(units) ==> price > 0 && units == amount * pow10(decimals as nat) / (
        price as int),
{
    let product: u64 = match checked_pow10(decimals) {
        Some(scale) => match amount.checked_mul(scale) {
            Some(product) => product,
            None => {
                return Err(IcoError::MathOverflow);
            },
        },
        None => {
            if amount == 0 {
                assert(amount * pow10(decimals as nat) == 0);
                0
            } else {
                assert(amount * pow10(decimals as nat) >= pow10(decimals as nat))
                    by (nonlinear_arith)
                    requires
                        amount >= 1,
                ;
                return Err(IcoError::MathOverflow);
            }
        },
    };
    match product.checked_div(price) {
        Some(units) => Ok(units),
        None => Err(IcoError::InvalidPrice),
    }
}

} // verus!
