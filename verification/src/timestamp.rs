//! Points in time and the rounds they fall into.

use vstd::arithmetic::power2::*;
use vstd::prelude::*;

verus! {

/// A point in time, in milliseconds since the epoch.
#[derive(Clone, Copy, Debug, PartialEq, Eq, PartialOrd, Ord, Hash)]
pub struct Timestamp(pub u64);

impl Timestamp {
    /// The number of milliseconds since the epoch.
    pub fn millis(&self) -> (millis: u64)
        ensures
            millis == self.0,
    {
        self.0
    }
}

/// The start of the round of length `2^round_exp` that contains `millis`:
/// the greatest multiple of the round length that is not after `millis`.
pub open spec fn round_start(millis: u64, round_exp: u8) -> int {
    (millis as int / pow2(round_exp as nat) as int) * pow2(round_exp as nat)
}

/// Returns the time at which the round with the given exponent that contains
/// `timestamp` began.
pub fn round_id(timestamp: Timestamp, round_exp: u8) -> (start: Timestamp)
    ensures
        start.0 == round_start(timestamp.0, round_exp),
        start.0 <= timestamp.0,
        timestamp.0 - start.0 < pow2(round_exp as nat),
{
    let millis: u64 = timestamp.0;
    proof {
        lemma_pow2_pos(round_exp as nat);
        vstd::arithmetic::div_mod::lemma_fundamental_div_mod(
            millis as int,
            pow2(round_exp as nat) as int,
        );
        vstd::arithmetic::div_mod::lemma_mod_bound(millis as int, pow2(round_exp as nat) as int);
    }
    if round_exp >= 64 {
        proof {
            lemma2_to64_rest();
            if round_exp > 64 {
                lemma_pow2_strictly_increases(64, round_exp as nat);
            }
            vstd::arithmetic::div_mod::lemma_basic_div(
                millis as int,
                pow2(round_exp as nat) as int,
            );
        }
        Timestamp(0)
    } else {
        let rounds: u64 = millis >> round_exp;
        proof {
            vstd::bits::lemma_u64_shr_is_div(millis, round_exp as u64);
            vstd::arithmetic::mul::lemma_mul_is_commutative(
                rounds as int,
                pow2(round_exp as nat) as int,
            );
            vstd::bits::lemma_u64_shl_is_mul(rounds, round_exp as u64);
        }
        Timestamp(rounds << round_exp)
    }
}

} // verus!
