//! The composite material: a shader reference plus bound parameters.
//!
//! A material instance bundles a color, two scalar uniforms (intensity and
//! vignette) and an optional texture binding that names an off-screen
//! target. Scalar uniforms are raw 32-bit patterns: the library never
//! interprets them numerically, it only stores and hands them back, so a
//! caller may put any encoding it likes (typically IEEE 754 single
//! precision) behind them. Instances live in an asset table and are
//! addressed by handle; looking up a released handle is a logic error,
//! reported rather than recovered from.

use vstd::prelude::*;
use crate::target::TargetHandle;

verus! {

/// One scalar uniform as the raw 32-bit pattern the shader will receive.
#[derive(Clone, Copy, Debug, PartialEq, Eq, Structural)]
pub struct ScalarBits {
    pub bits: u32,
}

/// A four-channel color uniform, each channel a raw 32-bit pattern.
#[derive(Clone, Copy, Debug, PartialEq, Eq, Structural)]
pub struct ColorBits {
    pub red: ScalarBits,
    pub green: ScalarBits,
    pub blue: ScalarBits,
    pub alpha: ScalarBits,
}

/// Names one of the material's scalar uniforms.
#[derive(Clone, Copy, Debug, PartialEq, Eq, Structural)]
pub enum ScalarParam {
    Intensity,
    Vignette,
}

/// A composite material instance: shader parameters for the full-screen
/// post-processing pass.
#[derive(Clone, Copy, Debug, PartialEq, Eq, Structural)]
pub struct Custom2DMaterial {
    pub color: ColorBits,
    pub intensity: ScalarBits,
    pub vignette: ScalarBits,
    pub color_texture: Option<TargetHandle>,
}

impl Custom2DMaterial {
    /// A material with the given parameters.
    pub fn new(
        color: ColorBits,
        intensity: ScalarBits,
        vignette: ScalarBits,
        color_texture: Option<TargetHandle>,
    ) -> (r: Custom2DMaterial)
        ensures
            r == (Custom2DMaterial { color, intensity, vignette, color_texture }),
    {
        Custom2DMaterial { color, intensity, vignette, color_texture }
    }

    /// Path of the fragment shader this material is compiled from.
    pub fn fragment_shader() -> (r: &'static str)
        ensures
            r@ == "shaders/custom_2d_material.wgsl"@,
    {
        "shaders/custom_2d_material.wgsl"
    }

    /// The material with the scalar uniform named by `param` replaced by
    /// `value` and every other parameter kept.
    pub open spec fn with_scalar(self, param: ScalarParam, value: ScalarBits) -> Custom2DMaterial {
        match param {
            ScalarParam::Intensity => Custom2DMaterial { intensity: value, ..self },
            ScalarParam::Vignette => Custom2DMaterial { vignette: value, ..self },
        }
    }

    /// Replace the scalar uniform named by `param`; the other scalar, the
    /// color and the texture binding keep their values.
    pub fn set_scalar(&mut self, param: ScalarParam, value: ScalarBits)
        ensures
            *final(self) == old(self).with_scalar(param, value),
    {
        match param {
            ScalarParam::Intensity => {
                self.intensity = value;
            },
            ScalarParam::Vignette => {
                self.vignette = value;
            },
        }
    }

    /// Rebind the texture input; every other parameter keeps its value.
    pub fn set_texture(&mut self, handle: Option<TargetHandle>)
        ensures
            *final(self) == (Custom2DMaterial { color_texture: handle, ..*old(self) }),
    {
        self.color_texture = handle;
    }
}

/// Why a material operation was refused.
#[derive(Clone, Copy, Debug, PartialEq, Eq, Structural)]
pub enum MaterialError {
    /// The handle does not name a live material instance: it was never
    /// issued by this table, or the instance was released.
    HandleNotFound,
}

/// Identifies one material instance in an asset table.
#[derive(Clone, Copy, Debug, PartialEq, Eq, Structural)]
pub struct MaterialHandle {
    pub id: usize,
}

/// The asset table of composite material instances. A slot is `Some`
/// while its instance is live and `None` once it has been released;
/// handles are slot indices and are never reused.
pub struct MaterialAssets {
    pub slots: Vec<Option<Custom2DMaterial>>,
}

impl MaterialAssets {
    /// How many handles this table has issued, released ones included.
    pub open spec fn spec_len(self) -> nat {
        self.slots@.len()
    }

    /// Whether `h` names a live material instance.
    pub open spec fn is_live(self, h: MaterialHandle) -> bool {
        h.id < self.slots@.len() && self.slots@[h.id as int] is Some
    }

    /// The instance named by `h`.
    pub open spec fn material_of(self, h: MaterialHandle) -> Custom2DMaterial
        recommends
            self.is_live(h),
    {
        self.slots@[h.id as int]->0
    }

    /// A table with no instances.
    pub fn new() -> (r: MaterialAssets)
        ensures
            r.spec_len() == 0,
    {
        MaterialAssets { slots: Vec::new() }
    }

    /// Add an instance; the fresh handle names it and every existing slot
    /// keeps its value.
    pub fn add(&mut self, m: Custom2DMaterial) -> (h: MaterialHandle)
        ensures
            h.id == old(self).spec_len(),
            final(self).is_live(h),
            final(self).slots@ == old(self).slots@.push(Some(m)),
            final(self).material_of(h) == m,
    {
        let id: usize = self.slots.len();
        self.slots.push(Some(m));
        MaterialHandle { id }
    }

    /// Look up a copy of the instance named by `h`; `None` exactly when
    /// the handle is not live.
    pub fn get(&self, h: MaterialHandle) -> (r: Option<Custom2DMaterial>)
        ensures
            r is Some <==> self.is_live(h),
            r is Some ==> r->0 == self.material_of(h),
    {
        if h.id < self.slots.len() {
            self.slots[h.id]
        } else {
            None
        }
    }

    /// Release the instance named by `h`: its slot becomes empty, every
    /// other slot keeps its value. Fails exactly when `h` is not live.
    pub fn release(&mut self, h: MaterialHandle) -> (r: Result<(), MaterialError>)
        ensures
            r is Ok <==> old(self).is_live(h),
            r is Err ==> *final(self) == *old(self) && r == Err::<(), MaterialError>(
                MaterialError::HandleNotFound,
            ),
            r is Ok ==> final(self).slots@ == old(self).slots@.update(h.id as int, None),
    {
        if h.id < self.slots.len() && self.slots[h.id].is_some() {
            self.slots.set(h.id, None);
            Ok(())
        } else {
            Err(MaterialError::HandleNotFound)
        }
    }

    /// Replace one scalar uniform of the instance named by `h`; the rest
    /// of the instance and every other slot keep their values. Fails
    /// exactly when `h` is not live, changing nothing.
    pub fn set_scalar(&mut self, h: MaterialHandle, param: ScalarParam, value: ScalarBits) -> (r:
        Result<(), MaterialError>)
        ensures
            r is Ok <==> old(self).is_live(h),
            r is Err ==> *final(self) == *old(self) && r == Err::<(), MaterialError>(
                MaterialError::HandleNotFound,
            ),
            r is Ok ==> final(self).slots@ == old(self).slots@.update(
                h.id as int,
                Some(old(self).material_of(h).with_scalar(param, value)),
            ),
    {
        if h.id < self.slots.len() {
            match self.slots[h.id] {
                Some(m) => {
                    let mut updated = m;
                    updated.set_scalar(param, value);
                    self.slots.set(h.id, Some(updated));
                    Ok(())
                },
                None => Err(MaterialError::HandleNotFound),
            }
        } else {
            Err(MaterialError::HandleNotFound)
        }
    }

    /// Rebind the texture input of the instance named by `h`; the rest of
    /// the instance and every other slot keep their values. Fails exactly
    /// when `h` is not live, changing nothing.
    pub fn set_texture(&mut self, h: MaterialHandle, texture: Option<TargetHandle>) -> (r: Result<
        (),
        MaterialError,
    >)
        ensures
            r is Ok <==> old(self).is_live(h),
            r is Err ==> *final(self) == *old(self) && r == Err::<(), MaterialError>(
                MaterialError::HandleNotFound,
            ),
            r is Ok ==> final(self).slots@ == old(self).slots@.update(
                h.id as int,
                Some(
                    Custom2DMaterial { color_texture: texture, ..old(self).material_of(h) },
                ),
            ),
    {
        if h.id < self.slots.len() {
            match self.slots[h.id] {
                Some(m) => {
                    let mut updated = m;
                    updated.set_texture(texture);
                    self.slots.set(h.id, Some(updated));
                    Ok(())
                },
                None => Err(MaterialError::HandleNotFound),
            }
        } else {
            Err(MaterialError::HandleNotFound)
        }
    }
}

} // verus!
