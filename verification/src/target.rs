//! Off-screen render target allocation.
//!
//! An off-screen target is a GPU-resident 2D image that a scene camera
//! renders into and a composite material later samples. The allocator owns
//! the descriptors of every target it has handed out, so that a texture
//! binding can be checked against the set of currently allocated targets.
//! Allocation fails with a configuration error when either dimension is
//! zero.

use vstd::prelude::*;

verus! {

/// Pixel layout of a render target. Both formats store four bytes per pixel.
#[derive(Clone, Copy, Debug, PartialEq, Eq, Structural)]
pub enum TextureFormat {
    Bgra8UnormSrgb,
    Rgba8UnormSrgb,
}

impl TextureFormat {
    /// Bytes occupied by one pixel in this format.
    pub open spec fn spec_bytes_per_pixel(self) -> u32 {
        4
    }

    /// Bytes occupied by one pixel in this format.
    pub fn bytes_per_pixel(self) -> (r: u32)
        ensures
            r == self.spec_bytes_per_pixel(),
    {
        4
    }
}

/// Usage bit: the target may be written by buffer-to-texture copies.
pub const USAGE_COPY_DST: u32 = 2;

/// Usage bit: the target may be bound as a sampled texture.
pub const USAGE_TEXTURE_BINDING: u32 = 4;

/// Usage bit: the target may serve as a render pass color attachment.
pub const USAGE_RENDER_ATTACHMENT: u32 = 16;

/// Identifies one allocated off-screen target.
#[derive(Clone, Copy, Debug, PartialEq, Eq, Structural)]
pub struct TargetHandle {
    pub id: usize,
}

/// Size, format and usage flags of an allocated target.
#[derive(Clone, Copy, Debug, PartialEq, Eq, Structural)]
pub struct TargetDesc {
    pub width: u32,
    pub height: u32,
    pub format: TextureFormat,
    pub usages: u32,
}

/// Why an allocation request was refused.
#[derive(Clone, Copy, Debug, PartialEq, Eq, Structural)]
pub enum AllocError {
    /// The requested width or height was zero.
    ZeroDimension,
}

/// Owns the off-screen targets of one post-processing chain.
pub struct TargetAllocator {
    pub targets: Vec<TargetDesc>,
}

impl TargetAllocator {
    /// How many targets have been allocated so far.
    pub open spec fn spec_len(self) -> nat {
        self.targets@.len()
    }

    /// Whether `h` names a currently allocated target.
    pub open spec fn is_allocated(self, h: TargetHandle) -> bool {
        h.id < self.targets@.len()
    }

    /// The descriptor of the target named by `h`.
    pub open spec fn desc_of(self, h: TargetHandle) -> TargetDesc
        recommends
            self.is_allocated(h),
    {
        self.targets@[h.id as int]
    }

    /// An allocator that has handed out no targets yet.
    pub fn new() -> (r: TargetAllocator)
        ensures
            r.spec_len() == 0,
    {
        TargetAllocator { targets: Vec::new() }
    }

    /// Allocate a target sized `width` by `height`, usable as a render
    /// attachment, a sampled texture and a copy destination. Fails exactly
    /// when `width` or `height` is zero; an allocated target keeps its
    /// descriptor forever, and previously issued handles stay valid.
    pub fn allocate(&mut self, width: u32, height: u32, format: TextureFormat) -> (r: Result<
        TargetHandle,
        AllocError,
    >)
        ensures
            r is Ok <==> width >= 1 && height >= 1,
            r is Err ==> *final(self) == *old(self) && r == Err::<TargetHandle, AllocError>(
                AllocError::ZeroDimension,
            ),
            r is Ok ==> final(self).is_allocated(r->Ok_0) && r->Ok_0.id == old(self).spec_len()
                && final(self).desc_of(r->Ok_0) == (TargetDesc {
                width,
                height,
                format,
                usages: USAGE_TEXTURE_BINDING | USAGE_COPY_DST | USAGE_RENDER_ATTACHMENT,
            }) && final(self).targets@ == old(self).targets@.push(final(self).desc_of(r->Ok_0)),
    {
        if width == 0 || height == 0 {
            return Err(AllocError::ZeroDimension);
        }
        let id: usize = self.targets.len();
        self.targets.push(
            TargetDesc {
                width,
                height,
                format,
                usages: USAGE_TEXTURE_BINDING | USAGE_COPY_DST | USAGE_RENDER_ATTACHMENT,
            },
        );
        Ok(TargetHandle { id })
    }

    /// Look up the descriptor of an allocated target; `None` exactly when
    /// the handle does not name one.
    pub fn describe(&self, h: TargetHandle) -> (r: Option<TargetDesc>)
        ensures
            r is Some <==> self.is_allocated(h),
            r is Some ==> r->0 == self.desc_of(h),
    {
        if h.id < self.targets.len() {
            Some(self.targets[h.id])
        } else {
            None
        }
    }
}

} // verus!
