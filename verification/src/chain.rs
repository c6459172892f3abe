//! Wiring one post-processing chain.
//!
//! A chain owns an off-screen target, a composite material bound to that
//! target, and two cameras: the scene camera renders the tagged scene
//! into the target, the presentation camera renders the full-screen quad
//! (carrying the material) to the window. The chain's invariants: the
//! material's texture binding names a currently allocated target, and the
//! scene camera's ordering key is strictly below the presentation
//! camera's, so the target is written before it is sampled.

use vstd::prelude::*;
use crate::driver::FrameScalars;
use crate::layer::RenderLayer;
use crate::material::{ColorBits, Custom2DMaterial, MaterialAssets, MaterialHandle};
use crate::target::{TargetAllocator, TargetHandle, TextureFormat};

verus! {

/// Where a camera sends its output.
#[derive(Clone, Copy, Debug, PartialEq, Eq, Structural)]
pub enum CameraTarget {
    /// The presentation surface.
    Window,
    /// An off-screen target.
    Image(TargetHandle),
}

/// A camera: an ordering key, an output target and the layers it renders.
/// Within a frame, cameras run in increasing key order.
#[derive(Clone, Copy, Debug, PartialEq, Eq, Structural)]
pub struct Camera {
    pub order: i64,
    pub target: CameraTarget,
    pub layers: RenderLayer,
}

/// Why building a chain was refused.
#[derive(Clone, Copy, Debug, PartialEq, Eq, Structural)]
pub enum ChainError {
    /// The requested target width or height was zero.
    ZeroDimension,
    /// The scene camera would not run strictly before the presentation
    /// camera.
    CameraOrderConflict,
}

/// One post-processing chain: its target, its material and its two
/// cameras.
#[derive(Clone, Copy, Debug, PartialEq, Eq, Structural)]
pub struct PostProcessChain {
    pub scene_camera: Camera,
    pub presentation_camera: Camera,
    pub target: TargetHandle,
    pub material: MaterialHandle,
}

impl PostProcessChain {
    /// Well-formedness against the allocator and asset table the chain
    /// was built in: the target is allocated, the material is live and
    /// samples exactly that target, the scene camera renders into the
    /// target while the presentation camera renders to the window, and
    /// the scene camera runs strictly first.
    pub open spec fn wf(self, alloc: TargetAllocator, assets: MaterialAssets) -> bool {
        &&& alloc.is_allocated(self.target)
        &&& assets.is_live(self.material)
        &&& assets.material_of(self.material).color_texture == Some(self.target)
        &&& self.scene_camera.target == CameraTarget::Image(self.target)
        &&& self.presentation_camera.target == CameraTarget::Window
        &&& self.scene_camera.order < self.presentation_camera.order
    }

    /// Allocate a `width` by `height` target, add a material bound to it
    /// with the given color and initial scalars, and wire the two
    /// cameras. Succeeds exactly when both dimensions are positive and
    /// `scene_order` is strictly below `presentation_order`; a zero
    /// dimension is reported over a bad ordering, and a refused call
    /// changes neither the allocator nor the asset table.
    pub fn build(
        alloc: &mut TargetAllocator,
        assets: &mut MaterialAssets,
        width: u32,
        height: u32,
        format: TextureFormat,
        color: ColorBits,
        initial: FrameScalars,
        scene_order: i64,
        presentation_order: i64,
        scene_layer: RenderLayer,
    ) -> (r: Result<PostProcessChain, ChainError>)
        ensures
            r is Ok <==> width >= 1 && height >= 1 && scene_order < presentation_order,
            width == 0 || height == 0 ==> r == Err::<PostProcessChain, ChainError>(
                ChainError::ZeroDimension,
            ),
            width >= 1 && height >= 1 && scene_order >= presentation_order ==> r == Err::<
                PostProcessChain,
                ChainError,
            >(ChainError::CameraOrderConflict),
            r is Err ==> *final(alloc) == *old(alloc) && *final(assets) == *old(assets),
            r is Ok ==> ({
                let chain = r->Ok_0;
                &&& chain.wf(*final(alloc), *final(assets))
                &&& chain.target.id == old(alloc).spec_len()
                &&& chain.material.id == old(assets).spec_len()
                &&& final(alloc).is_allocated(chain.target)
                &&& final(alloc).desc_of(chain.target).width == width
                &&& final(alloc).desc_of(chain.target).height == height
                &&& final(alloc).desc_of(chain.target).format == format
                &&& final(assets).material_of(chain.material) == (Custom2DMaterial {
                    color,
                    intensity: initial.intensity,
                    vignette: initial.vignette,
                    color_texture: Some(chain.target),
                })
                &&& chain.scene_camera == (Camera {
                    order: scene_order,
                    target: CameraTarget::Image(chain.target),
                    layers: scene_layer,
                })
                &&& chain.presentation_camera.order == presentation_order
                &&& chain.presentation_camera.layers.mask == 1u32
            }),
    {
        if width == 0 || height == 0 {
            return Err(ChainError::ZeroDimension);
        }
        if scene_order >= presentation_order {
            return Err(ChainError::CameraOrderConflict);
        }
        let target: TargetHandle = match alloc.allocate(width, height, format) {
            Ok(t) => t,
            Err(_) => {
                proof {
                    assert(false);
                }
                return Err(ChainError::ZeroDimension);
            },
        };
        let material: MaterialHandle = assets.add(
            Custom2DMaterial::new(
                color,
                initial.intensity,
                initial.vignette,
                Some(target),
            ),
        );
        let scene_camera = Camera {
            order: scene_order,
            target: CameraTarget::Image(target),
            layers: scene_layer,
        };
        let presentation_camera = Camera {
            order: presentation_order,
            target: CameraTarget::Window,
            layers: RenderLayer::default_layer(),
        };
        Ok(PostProcessChain { scene_camera, presentation_camera, target, material })
    }
}

} // verus!
