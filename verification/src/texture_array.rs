//! Reinterpreting a stacked 2D image as an array texture.
//!
//! A 2D image whose rows hold several equally tall layers stacked on top
//! of each other can be re-addressed as an array texture: only the
//! metadata (per-layer height and layer count) changes, the pixel bytes
//! stay exactly where they are. The reinterpretation is rejected with a
//! size-mismatch error whenever the layer count does not cut the buffer
//! into whole layers, and a rejected call leaves the image untouched.

use vstd::prelude::*;
use vstd::arithmetic::div_mod::{lemma_fundamental_div_mod, lemma_mod_multiples_basic};

verus! {

/// Why an image operation was refused.
#[derive(Clone, Copy, Debug, PartialEq, Eq, Structural)]
pub enum TextureError {
    /// A dimension of the requested image was zero.
    ZeroDimension,
    /// The buffer length does not match the requested dimensions.
    SizeMismatch,
}

/// A CPU-side image: dimensions, layer count and the pixel bytes.
///
/// `height` is the height of one layer; a plain 2D image has
/// `layer_count == 1`.
pub struct TextureData {
    pub width: u32,
    pub height: u32,
    pub bytes_per_pixel: u32,
    pub layer_count: u32,
    pub data: Vec<u8>,
}

impl TextureData {
    /// Well-formedness: no dimension is zero, the buffer holds exactly
    /// `width * height * bytes_per_pixel` bytes for each layer, and the
    /// layers stacked back into one 2D image still have a representable
    /// height.
    pub open spec fn wf(self) -> bool {
        &&& self.width >= 1
        &&& self.height >= 1
        &&& self.bytes_per_pixel >= 1
        &&& self.layer_count >= 1
        &&& self.data@.len() == self.width * self.height * self.bytes_per_pixel
            * self.layer_count
        &&& self.height * self.layer_count <= u32::MAX
    }

    /// Whether a stacked 2D image can be re-addressed as `layer_count`
    /// layers: the count is positive and cuts the image height — and with
    /// it the buffer — into whole layers.
    pub open spec fn can_reinterpret(self, layer_count: u32) -> bool {
        layer_count >= 1 && self.height % layer_count == 0
    }

    /// The image re-addressed as `layer_count` layers: same bytes, same
    /// width, per-layer height.
    pub open spec fn reinterpreted_as_array(self, layer_count: u32) -> TextureData {
        TextureData {
            width: self.width,
            height: self.height / layer_count,
            bytes_per_pixel: self.bytes_per_pixel,
            layer_count,
            data: self.data,
        }
    }

    /// The image re-addressed as a single 2D image: same bytes, the
    /// layers stacked back into the height.
    pub open spec fn reinterpreted_as_2d(self) -> TextureData {
        TextureData {
            width: self.width,
            height: (self.height * self.layer_count) as u32,
            bytes_per_pixel: self.bytes_per_pixel,
            layer_count: 1,
            data: self.data,
        }
    }

    /// Wrap an existing pixel buffer as a single 2D image. Succeeds
    /// exactly when no dimension is zero and the buffer length matches
    /// the dimensions; the bytes are taken over unchanged.
    pub fn from_bytes(width: u32, height: u32, bytes_per_pixel: u32, data: Vec<u8>) -> (r: Result<
        TextureData,
        TextureError,
    >)
        ensures
            r is Ok <==> width >= 1 && height >= 1 && bytes_per_pixel >= 1 && data@.len() == width
                * height * bytes_per_pixel,
            r is Ok ==> r->Ok_0 == (TextureData {
                width,
                height,
                bytes_per_pixel,
                layer_count: 1u32,
                data,
            }) && r->Ok_0.wf(),
            r is Err ==> r->Err_0 == (if width == 0 || height == 0 || bytes_per_pixel == 0 {
                TextureError::ZeroDimension
            } else {
                TextureError::SizeMismatch
            }),
    {
        if width == 0 || height == 0 || bytes_per_pixel == 0 {
            return Err(TextureError::ZeroDimension);
        }
        proof {
            assert((width as int) * (height as int) < u128::MAX) by (nonlinear_arith)
                requires
                    width <= u32::MAX,
                    height <= u32::MAX,
            ;
            assert((width as int) * (height as int) * (bytes_per_pixel as int) < u128::MAX)
                by (nonlinear_arith)
                requires
                    width <= u32::MAX,
                    height <= u32::MAX,
                    bytes_per_pixel <= u32::MAX,
            ;
        }
        let expected: u128 = (width as u128) * (height as u128) * (bytes_per_pixel as u128);
        if (data.len() as u128) != expected {
            return Err(TextureError::SizeMismatch);
        }
        Ok(TextureData { width, height, bytes_per_pixel, layer_count: 1, data })
    }

    /// Re-address this single 2D image as an array texture of
    /// `layer_count` layers. Only metadata changes: the pixel bytes are
    /// neither moved nor copied. Fails with a size mismatch exactly when
    /// `layer_count` does not cut the image into whole layers, and then
    /// changes nothing.
    pub fn reinterpret_stacked_2d_as_array(&mut self, layer_count: u32) -> (r: Result<
        (),
        TextureError,
    >)
        requires
            old(self).wf(),
            old(self).layer_count == 1,
        ensures
            r is Ok <==> old(self).can_reinterpret(layer_count),
            r is Ok ==> *final(self) == old(self).reinterpreted_as_array(layer_count),
            r is Err ==> *final(self) == *old(self) && r == Err::<(), TextureError>(
                TextureError::SizeMismatch,
            ),
            final(self).wf(),
            final(self).data@ == old(self).data@,
    {
        if layer_count == 0 || self.height % layer_count != 0 {
            return Err(TextureError::SizeMismatch);
        }
        proof {
            lemma_reinterpreted_as_array_wf(*self, layer_count);
        }
        self.height = self.height / layer_count;
        self.layer_count = layer_count;
        Ok(())
    }

    /// Re-address this image as a single 2D image with the layers
    /// stacked back into the height. Only metadata changes; always
    /// succeeds.
    pub fn reinterpret_as_2d(&mut self)
        requires
            old(self).wf(),
        ensures
            *final(self) == old(self).reinterpreted_as_2d(),
            final(self).wf(),
            final(self).data@ == old(self).data@,
    {
        proof {
            lemma_reinterpreted_as_2d_wf(*self);
        }
        self.height = self.height * self.layer_count;
        self.layer_count = 1;
    }
}

/// Re-addressing a well-formed stacked image as whole layers yields a
/// well-formed image: the bytes still fill the layers exactly.
pub proof fn lemma_reinterpreted_as_array_wf(img: TextureData, layer_count: u32)
    requires
        img.wf(),
        img.layer_count == 1,
        img.can_reinterpret(layer_count),
    ensures
        img.reinterpreted_as_array(layer_count).wf(),
        img.reinterpreted_as_array(layer_count).height * layer_count == img.height,
{
    let h: int = img.height as int;
    let lc: int = layer_count as int;
    let q: int = h / lc;
    lemma_fundamental_div_mod(h, lc);
    assert(h == lc * q);
    assert(q >= 1) by (nonlinear_arith)
        requires
            h == lc * q,
            h >= 1,
            lc >= 1,
            q >= 0,
    ;
    assert(q * lc <= u32::MAX) by (nonlinear_arith)
        requires
            h == lc * q,
            h <= u32::MAX,
    ;
    let w: int = img.width as int;
    let b: int = img.bytes_per_pixel as int;
    assert(w * q * b * lc == w * h * b) by (nonlinear_arith)
        requires
            h == lc * q,
    ;
}

/// Stacking the layers of a well-formed image back into one 2D image
/// yields a well-formed image.
pub proof fn lemma_reinterpreted_as_2d_wf(img: TextureData)
    requires
        img.wf(),
    ensures
        img.reinterpreted_as_2d().wf(),
{
    let w: int = img.width as int;
    let h: int = img.height as int;
    let b: int = img.bytes_per_pixel as int;
    let lc: int = img.layer_count as int;
    assert(w * (h * lc) * b * 1 == w * h * b * lc) by (nonlinear_arith);
    assert(h * lc >= 1) by (nonlinear_arith)
        requires
            h >= 1,
            lc >= 1,
    ;
}

/// Round trip: re-addressing a 2D image as an array texture and then
/// back as a single 2D image restores the image exactly — dimensions,
/// layer count and every byte.
pub proof fn lemma_reinterpret_round_trip(img: TextureData, layer_count: u32)
    requires
        img.wf(),
        img.layer_count == 1,
        img.can_reinterpret(layer_count),
    ensures
        img.reinterpreted_as_array(layer_count).reinterpreted_as_2d() == img,
{
    let h: int = img.height as int;
    let lc: int = layer_count as int;
    lemma_fundamental_div_mod(h, lc);
    assert((h / lc) * lc == h) by (nonlinear_arith)
        requires
            h == lc * (h / lc),
    ;
}

/// A layer count that does not evenly divide the buffer length never
/// satisfies the reinterpretation precondition, so the reinterpretation
/// of a well-formed 2D image is rejected for it.
pub proof fn lemma_nondividing_layer_count_rejected(img: TextureData, layer_count: u32)
    requires
        img.wf(),
        img.layer_count == 1,
        layer_count == 0 || (img.data@.len() as int) % (layer_count as int) != 0,
    ensures
        !img.can_reinterpret(layer_count),
{
    if layer_count >= 1 && img.height % layer_count == 0 {
        let w: int = img.width as int;
        let h: int = img.height as int;
        let b: int = img.bytes_per_pixel as int;
        let lc: int = layer_count as int;
        let q: int = h / lc;
        lemma_fundamental_div_mod(h, lc);
        assert(h == lc * q);
        assert(w * h * b * 1 == (w * q * b) * lc) by (nonlinear_arith)
            requires
                h == lc * q,
        ;
        lemma_mod_multiples_basic(w * q * b, lc);
        assert((img.data@.len() as int) % lc == 0);
    }
}

} // verus!
