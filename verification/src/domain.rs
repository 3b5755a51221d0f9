//! Evaluation-domain sizing for the setup builder: the custom-gate system lives on
//! a power-of-two domain, at least as large as the number of gates, clamped up to
//! the smallest supported power and rejected above the largest.

use vstd::prelude::*;
use vstd::arithmetic::power2::pow2;
use vstd::arithmetic::power::lemma_pow_strictly_increases;
use vstd::arithmetic::power2::lemma2_to64;
use crate::plonk::PlonkError;

verus! {

/// Smallest supported log2 of the evaluation-domain size.
pub const SETUP_MIN_POW2: u32 = 10;

/// Largest supported log2 of the evaluation-domain size.
pub const SETUP_MAX_POW2: u32 = 26;

/// Sizes the evaluation domain for a gate count: the next power of two at
/// least the count, clamped up from below to `2^SETUP_MIN_POW2`. Returns the
/// domain's log2 and the domain size itself. A gate count needing more than
/// `2^SETUP_MAX_POW2` is a configuration error, never clamped down.
pub fn setup_power_of_two(gate_count: usize) -> (r: Result<(u32, usize), PlonkError>)
    ensures
        r is Ok <==> gate_count <= pow2(SETUP_MAX_POW2 as nat),
        r matches Ok(p) ==> {
            &&& SETUP_MIN_POW2 <= p.0 <= SETUP_MAX_POW2
            &&& p.1 == pow2(p.0 as nat)
            &&& gate_count <= p.1
            &&& (p.0 == SETUP_MIN_POW2 || pow2((p.0 - 1) as nat) < gate_count)
        },
        r matches Err(e) ==> e == PlonkError::SetupPowerOutOfRange,
{
    proof {
        lemma2_to64();
    }
    let mut p: u32 = SETUP_MIN_POW2;
    let mut d: usize = 1024;
    while d < gate_count && p < SETUP_MAX_POW2
        invariant
            SETUP_MIN_POW2 <= p <= SETUP_MAX_POW2,
            d == pow2(p as nat),
            d <= 0x400_0000,
            p == SETUP_MIN_POW2 || pow2((p - 1) as nat) < gate_count,
        decreases SETUP_MAX_POW2 - p,
    {
        proof {
            lemma_pow_strictly_increases(2, p as nat, SETUP_MAX_POW2 as nat);
            lemma2_to64();
            assert(pow2((p + 1) as nat) == 2 * pow2(p as nat)) by {
                vstd::arithmetic::power::lemma_pow_adds(2, p as nat, 1nat);
                vstd::arithmetic::power::lemma_pow1(2);
            }
        }
        d = d * 2;
        p = p + 1;
    }
    if d < gate_count {
        proof {
            lemma2_to64();
        }
        Err(PlonkError::SetupPowerOutOfRange)
    } else {
        proof {
            lemma2_to64();
            if p < SETUP_MAX_POW2 {
                lemma_pow_strictly_increases(2, p as nat, SETUP_MAX_POW2 as nat);
            }
        }
        Ok((p, d))
    }
}

} // verus!
