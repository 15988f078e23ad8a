//! Volume values and mixing.
//!
//! A volume is a linear gain in the unit interval, held in fixed point as
//! thousandths: `0` is silence, [`FULL_VOLUME`] (`1000`) is unity gain.
//! Every write clamps into that range; mixing two volumes multiplies the
//! gains.

use vstd::prelude::*;

verus! {

/// Unity gain, in thousandths.
pub const FULL_VOLUME: u32 = 1000;

/// What every stored volume looks like: the written value clamped into
/// `[0, FULL_VOLUME]`.
pub open spec fn clamped(v: u32) -> u32 {
    if v > 1000 {
        1000
    } else {
        v
    }
}

/// A volume is valid when it lies in `[0, FULL_VOLUME]`.
pub open spec fn valid_volume(v: u32) -> bool {
    v <= 1000
}

/// The mix of two gains `a` and `b` (both in thousandths): the product,
/// scaled back to thousandths, rounded toward zero.
pub open spec fn mixed(a: u32, b: u32) -> int {
    (a * b) / 1000
}

/// Clamp a requested volume into `[0, FULL_VOLUME]`.
pub fn clamp_volume(v: u32) -> (r: u32)
    ensures
        r == clamped(v),
        valid_volume(r),
{
    if v > FULL_VOLUME {
        FULL_VOLUME
    } else {
        v
    }
}

/// Mix two valid volumes into the effective gain.
pub fn mix_volume(a: u32, b: u32) -> (r: u32)
    requires
        valid_volume(a),
        valid_volume(b),
    ensures
        r == mixed(a, b),
        valid_volume(r),
{
    proof {
        assert(a * b <= 1000 * 1000) by (nonlinear_arith)
            requires
                a <= 1000,
                b <= 1000,
        ;
        assert((a * b) / 1000 <= 1000) by (nonlinear_arith)
            requires
                a * b <= 1000 * 1000,
        ;
    }
    (a * b) / 1000
}

/// Clamping is idempotent: re-clamping an already clamped volume changes
/// nothing, so a stored volume can be written back verbatim.
pub proof fn lemma_clamp_idempotent(v: u32)
    ensures
        clamped(clamped(v)) == clamped(v),
{
}

} // verus!
