//! Render-layer tags.
//!
//! A layer tag is a 32-bit mask attached to cameras and renderable
//! entities; a camera draws an entity exactly when their masks share a
//! bit. The tags partition the scene between the off-screen camera (which
//! must not see the full-screen quad) and the presentation camera.

use vstd::prelude::*;

verus! {

/// Number of distinct render layers.
pub const LAYER_COUNT: u32 = 32;

/// A set of render layers as a bitmask.
#[derive(Clone, Copy, Debug, PartialEq, Eq, Structural)]
pub struct RenderLayer {
    pub mask: u32,
}

impl RenderLayer {
    /// The default layer: layer 0 alone, carried by entities and cameras
    /// that were given no explicit tag.
    pub fn default_layer() -> (r: RenderLayer)
        ensures
            r.mask == 1u32,
    {
        RenderLayer { mask: 1 }
    }

    /// The tag containing layer `n` alone.
    pub fn layer(n: u32) -> (r: RenderLayer)
        requires
            n < LAYER_COUNT,
        ensures
            r.mask == 1u32 << n,
    {
        RenderLayer { mask: 1u32 << n }
    }

    /// The union of two tags.
    pub fn union(self, other: RenderLayer) -> (r: RenderLayer)
        ensures
            r.mask == self.mask | other.mask,
    {
        RenderLayer { mask: self.mask | other.mask }
    }

    /// Whether the two tags share a layer: a camera tagged `self` renders
    /// an entity tagged `other` exactly when this holds.
    pub fn intersects(self, other: RenderLayer) -> (r: bool)
        ensures
            r == ((self.mask & other.mask) != 0),
    {
        (self.mask & other.mask) != 0
    }
}

/// Two single layers with different indices never intersect, so tagging
/// the scene and the full-screen quad with different layers keeps each
/// camera's view disjoint from the other's.
pub proof fn lemma_distinct_layers_disjoint(a: u32, b: u32)
    requires
        a < LAYER_COUNT,
        b < LAYER_COUNT,
        a != b,
    ensures
        ((1u32 << a) & (1u32 << b)) == 0,
{
    assert(((1u32 << a) & (1u32 << b)) == 0) by (bit_vector)
        requires
            a < 32u32,
            b < 32u32,
            a != b,
    ;
}

} // verus!
