use vstd::prelude::*;

use crate::error::{command_error, is_command_error, CadencyError};

verus! {

/// The number whose base 2^32 digits, least significant first, are `d`.
pub open spec fn digits_value(d: Seq<u32>) -> nat
    decreases d.len(),
{
    if d.len() == 0 {
        0
    } else {
        d[0] as nat + 0x1_0000_0000 * digits_value(d.drop_first())
    }
}

/// The `n`th Fibonacci number.
pub open spec fn fib(n: nat) -> nat
    decreases n,
{
    if n == 0 {
        0
    } else if n == 1 {
        1
    } else {
        fib((n - 2) as nat) + fib((n - 1) as nat)
    }
}

/// Relies on num-bigint: `BigUint::new` reads base 2^32 digits least
/// significant first, `+` on two `BigUint`s adds them, and
/// `BigUint::to_u32_digits` gives the digits of the sum in the same order.
#[verifier::external_body]
fn add_digits(a: &Vec<u32>, b: &Vec<u32>) -> (r: Vec<u32>)
    ensures
        digits_value(r@) == digits_value(a@) + digits_value(b@),
{
    (num_bigint::BigUint::new(a.clone()) + num_bigint::BigUint::new(b.clone())).to_u32_digits()
}

pub open spec fn negative_text() -> Seq<char> {
    "❌ **The number must be non-negative**"@
}

/// Calculates the nth number in the Fibonacci sequence.
#[derive(Debug, Default)]
pub struct Fib {}

impl Fib {
    /// The `n`th Fibonacci number as base 2^32 digits, least significant
    /// first; a negative `n` is refused.
    pub fn calc(n: &i64) -> (r: Result<Vec<u32>, CadencyError>)
        ensures
            *n < 0 ==> is_command_error(r, negative_text()),
            *n >= 0 ==> r is Ok && digits_value(r->Ok_0@) == fib(*n as nat),
    {
        if *n < 0 {
            return Err(command_error("❌ **The number must be non-negative**"));
        }
        if *n == 0 {
            return Ok(Vec::new());
        }
        let mut prev: Vec<u32> = Vec::new();
        let mut curr: Vec<u32> = Vec::new();
        curr.push(1);
        assert(digits_value(curr@.drop_first()) == 0) by {
            assert(curr@.drop_first().len() == 0);
        }
        let mut k: i64 = 1;
        while k < *n
            invariant
                1 <= k <= *n,
                digits_value(prev@) == fib((k - 1) as nat),
                digits_value(curr@) == fib(k as nat),
            decreases *n - k,
        {
            let next = add_digits(&prev, &curr);
            prev = curr;
            curr = next;
            k = k + 1;
        }
        Ok(curr)
    }
}

} // verus!
