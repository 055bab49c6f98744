use rand::Rng;
use vstd::prelude::*;

use crate::text::decimal::{all_digits, decimal, format_u64, lemma_decimal_digits};

verus! {

/// The random number generator of the current thread, `rand::rngs::ThreadRng`.
#[verifier::external_type_specification]
#[verifier::external_body]
pub struct ExThreadRng(rand::rngs::ThreadRng);

/// `rand::thread_rng`: the generator of the current thread. Nothing is claimed of it.
#[verifier::external_body]
fn thread_rng() -> rand::rngs::ThreadRng {
    rand::thread_rng()
}

/// `Rng::gen_range` on `low..high`: claims only what its documentation gives, that the value
/// lies in the half-open range (which must not be empty, else it panics).
#[verifier::external_body]
fn gen_range(rng: &mut rand::rngs::ThreadRng, low: u32, high: u32) -> (r: u32)
    requires
        low < high,
    ensures
        low <= r < high,
{
    rng.gen_range(low..high)
}

/// The smallest verification code.
pub const CODE_LOW: u32 = 1111;

/// One more than the largest verification code.
pub const CODE_HIGH: u32 = 9999;

/// The text of a verification code drawn as `n`: its decimal writing.
pub fn code_text(n: u32) -> (s: String)
    ensures
        s@ == decimal(n as nat),
{
    format_u64(n as u64)
}

/// A fresh verification code: a number drawn at random from `1111..9999`, written in
/// decimal.
pub fn generate_random_string() -> (s: String)
    ensures
        exists|n: nat| CODE_LOW <= n < CODE_HIGH && s@ == #[trigger] decimal(n),
{
    let mut rng = thread_rng();
    let n = gen_range(&mut rng, CODE_LOW, CODE_HIGH);
    let s = code_text(n);
    assert(CODE_LOW <= n as nat && (n as nat) < CODE_HIGH && s@ == decimal(n as nat));
    s
}

/// Every verification code is four digits long.
pub proof fn law_codes_have_four_digits(n: nat)
    requires
        CODE_LOW <= n < CODE_HIGH,
    ensures
        decimal(n).len() == 4,
        all_digits(decimal(n)),
{
    lemma_decimal_digits(n);
    let a = n / 10;
    let b = a / 10;
    let c = b / 10;
    assert(n >= 10 && a >= 10 && b >= 10 && c < 10);
    assert(decimal(n).len() == decimal(a).len() + 1);
    assert(decimal(a).len() == decimal(b).len() + 1);
    assert(decimal(b).len() == decimal(c).len() + 1);
    assert(decimal(c).len() == 1);
}

} // verus!
