//! The hold-progress indicator's value.
//!
//! While a hold or drag is in progress the host shows a small radial
//! indicator whose fill is the fraction of the hold threshold already
//! elapsed. The core computes that fraction, in thousandths to stay in
//! integers; drawing it is the host's work.

use crate::gesture::GestureState;
use vstd::prelude::*;

verus! {

/// The hold fraction in thousandths: `elapsed / threshold`, scaled by 1000
/// and clamped to `[0, 1000]`.
pub open spec fn progress_permille_spec(elapsed: int, threshold: int) -> int
    recommends
        threshold > 0,
{
    if elapsed >= threshold {
        1000
    } else {
        (elapsed * 1000) / threshold
    }
}

/// How full the hold-progress indicator is, in thousandths of the whole.
/// Exactly `elapsed / threshold` scaled by 1000 and rounded down, clamped at
/// full once the threshold is reached.
pub fn progress_permille(elapsed: u64, threshold: u64) -> (r: u32)
    requires
        threshold > 0,
    ensures
        r == progress_permille_spec(elapsed as int, threshold as int),
        r <= 1000,
{
    if elapsed >= threshold {
        1000
    } else {
        let scaled: u128 = (elapsed as u128) * 1000;
        let q: u128 = scaled / (threshold as u128);
        proof {
            let e = elapsed as int;
            let t = threshold as int;
            vstd::arithmetic::div_mod::lemma_fundamental_div_mod(e * 1000, t);
            vstd::arithmetic::div_mod::lemma_mod_bound(e * 1000, t);
            assert(((e * 1000) / t) * t <= e * 1000);
            assert((e * 1000) / t >= 0) by {
                vstd::arithmetic::div_mod::lemma_div_pos_is_pos(e * 1000, t);
            }
            assert((e * 1000) / t < 1000) by (nonlinear_arith)
                requires
                    ((e * 1000) / t) * t <= e * 1000,
                    e < t,
                    t > 0,
                    (e * 1000) / t >= 0,
            ;
        }
        q as u32
    }
}

/// Whether the indicator is shown at all: it is visible exactly while a
/// hold, armed drag or drag is in progress, and hidden at rest.
pub fn progress_visible(state: &GestureState) -> (r: bool)
    ensures
        r == !(state is NotHolding),
{
    match state {
        GestureState::NotHolding => false,
        _ => true,
    }
}

} // verus!
