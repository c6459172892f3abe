//! The per-frame parameter driver.
//!
//! Once per frame the driver writes freshly computed scalar uniforms into
//! the composite material. The numeric formulas are a pure function of
//! elapsed time and are evaluated by the caller (they live in
//! floating-point); the driver step itself is the verified part: given the
//! two bit patterns for the frame, it stores them in the material named by
//! the handle and touches nothing else.

use vstd::prelude::*;
use crate::material::{MaterialAssets, MaterialError, MaterialHandle, ScalarBits, ScalarParam};

verus! {

/// The scalar uniforms computed for one frame.
#[derive(Clone, Copy, Debug, PartialEq, Eq, Structural)]
pub struct FrameScalars {
    pub intensity: ScalarBits,
    pub vignette: ScalarBits,
}

/// Write this frame's scalars into the material named by `h`. The
/// material's color and texture binding, and every other instance in the
/// table, keep their values; the same scalars always produce the same
/// material state. Fails exactly when `h` does not name a live instance,
/// changing nothing.
pub fn drive_frame(assets: &mut MaterialAssets, h: MaterialHandle, scalars: FrameScalars) -> (r:
    Result<(), MaterialError>)
    ensures
        r is Ok <==> old(assets).is_live(h),
        r is Err ==> *final(assets) == *old(assets) && r == Err::<(), MaterialError>(
            MaterialError::HandleNotFound,
        ),
        r is Ok ==> final(assets).slots@ == old(assets).slots@.update(
            h.id as int,
            Some(
                old(assets).material_of(h).with_scalar(
                    ScalarParam::Intensity,
                    scalars.intensity,
                ).with_scalar(ScalarParam::Vignette, scalars.vignette),
            ),
        ),
{
    let r1 = assets.set_scalar(h, ScalarParam::Intensity, scalars.intensity);
    match r1 {
        Ok(()) => {
            let r2 = assets.set_scalar(h, ScalarParam::Vignette, scalars.vignette);
            proof {
                assert(assets.slots@ =~= old(assets).slots@.update(
                    h.id as int,
                    Some(
                        old(assets).material_of(h).with_scalar(
                            ScalarParam::Intensity,
                            scalars.intensity,
                        ).with_scalar(ScalarParam::Vignette, scalars.vignette),
                    ),
                ));
            }
            r2
        },
        Err(e) => Err(e),
    }
}

} // verus!
