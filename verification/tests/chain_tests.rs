use post_process::chain::{CameraTarget, ChainError, PostProcessChain};
use post_process::driver::{drive_frame, FrameScalars};
use post_process::layer::RenderLayer;
use post_process::material::{ColorBits, MaterialAssets, ScalarBits};
use post_process::target::{
    AllocError, TargetAllocator, TargetHandle, TextureFormat, USAGE_COPY_DST,
    USAGE_RENDER_ATTACHMENT, USAGE_TEXTURE_BINDING,
};

fn white() -> ColorBits {
    let one = ScalarBits { bits: 1.0f32.to_bits() };
    ColorBits { red: one, green: one, blue: one, alpha: one }
}

fn zero_scalars() -> FrameScalars {
    FrameScalars { intensity: ScalarBits { bits: 0 }, vignette: ScalarBits { bits: 0 } }
}

/// The scalar uniforms the parameter driver computes for elapsed time `t`.
fn scalars_at(t: f64) -> FrameScalars {
    let intensity: f32 = (8.0 * t as f32).sin() / 500.0;
    let vignette: f32 = ((2.0 * t as f32).sin() + 1.0) / 2.0;
    FrameScalars {
        intensity: ScalarBits { bits: intensity.to_bits() },
        vignette: ScalarBits { bits: vignette.to_bits() },
    }
}

#[test]
fn allocate_zero_width_fails() {
    let mut alloc = TargetAllocator::new();
    let r = alloc.allocate(0, 512, TextureFormat::Bgra8UnormSrgb);
    assert_eq!(r, Err(AllocError::ZeroDimension));
}

#[test]
fn allocate_zero_height_fails() {
    let mut alloc = TargetAllocator::new();
    let r = alloc.allocate(512, 0, TextureFormat::Bgra8UnormSrgb);
    assert_eq!(r, Err(AllocError::ZeroDimension));
}

#[test]
fn allocate_sets_descriptor_and_usages() {
    let mut alloc = TargetAllocator::new();
    let h = alloc.allocate(640, 480, TextureFormat::Bgra8UnormSrgb).expect("nonzero dims");
    let desc = alloc.describe(h).expect("allocated");
    assert_eq!(desc.width, 640);
    assert_eq!(desc.height, 480);
    assert_eq!(desc.format, TextureFormat::Bgra8UnormSrgb);
    assert_eq!(desc.usages, USAGE_TEXTURE_BINDING | USAGE_COPY_DST | USAGE_RENDER_ATTACHMENT);
    assert!(alloc.describe(TargetHandle { id: 1 }).is_none());
}

#[test]
fn layer_masks() {
    assert_eq!(RenderLayer::default_layer().mask, 1);
    assert_eq!(RenderLayer::layer(1).mask, 2);
    assert_eq!(RenderLayer::layer(5).mask, 32);
    assert!(!RenderLayer::layer(1).intersects(RenderLayer::default_layer()));
    assert!(RenderLayer::layer(3).intersects(RenderLayer::layer(3)));
    let both = RenderLayer::layer(0).union(RenderLayer::layer(1));
    assert!(both.intersects(RenderLayer::layer(1)));
    assert!(both.intersects(RenderLayer::default_layer()));
}

#[test]
fn build_zero_dimension_fails() {
    let mut alloc = TargetAllocator::new();
    let mut assets = MaterialAssets::new();
    let r = PostProcessChain::build(
        &mut alloc,
        &mut assets,
        0,
        512,
        TextureFormat::Bgra8UnormSrgb,
        white(),
        zero_scalars(),
        -1,
        0,
        RenderLayer::layer(1),
    );
    assert_eq!(r, Err(ChainError::ZeroDimension));
    assert!(assets.get(post_process::material::MaterialHandle { id: 0 }).is_none());
}

#[test]
fn build_bad_camera_order_fails() {
    let mut alloc = TargetAllocator::new();
    let mut assets = MaterialAssets::new();
    let r = PostProcessChain::build(
        &mut alloc,
        &mut assets,
        512,
        512,
        TextureFormat::Bgra8UnormSrgb,
        white(),
        zero_scalars(),
        0,
        0,
        RenderLayer::layer(1),
    );
    assert_eq!(r, Err(ChainError::CameraOrderConflict));
}

#[test]
fn build_wires_the_chain() {
    let mut alloc = TargetAllocator::new();
    let mut assets = MaterialAssets::new();
    let chain = PostProcessChain::build(
        &mut alloc,
        &mut assets,
        512,
        512,
        TextureFormat::Bgra8UnormSrgb,
        white(),
        zero_scalars(),
        -1,
        0,
        RenderLayer::layer(1),
    )
    .expect("valid configuration");
    assert!(chain.scene_camera.order < chain.presentation_camera.order);
    assert_eq!(chain.scene_camera.target, CameraTarget::Image(chain.target));
    assert_eq!(chain.presentation_camera.target, CameraTarget::Window);
    assert!(!chain.scene_camera.layers.intersects(chain.presentation_camera.layers));
    let desc = alloc.describe(chain.target).expect("target allocated");
    assert_eq!((desc.width, desc.height), (512, 512));
    let mat = assets.get(chain.material).expect("material live");
    assert_eq!(mat.color_texture, Some(chain.target));
}

#[test]
fn formulas_stay_in_range_at_sampled_times() {
    // intensity stays within [-1/500, 1/500] and vignette within [0, 1].
    for k in 0..200 {
        let t = k as f64 * 0.173;
        let s = scalars_at(t);
        let i = f32::from_bits(s.intensity.bits);
        let v = f32::from_bits(s.vignette.bits);
        assert!(i.abs() <= 1.0f32 / 500.0);
        assert!((0.0f32..=1.0f32).contains(&v));
    }
}

#[test]
fn formulas_repeat_after_their_periods() {
    // intensity has period pi/4 and vignette period pi; in 32-bit
    // arithmetic the repetition is approximate.
    let mut assets = MaterialAssets::new();
    let m = assets.add(post_process::material::Custom2DMaterial::new(
        white(),
        ScalarBits { bits: 0 },
        ScalarBits { bits: 0 },
        None,
    ));
    let t: f64 = 0.3;
    drive_frame(&mut assets, m, scalars_at(t)).expect("material live");
    let base = assets.get(m).expect("material live");
    drive_frame(&mut assets, m, scalars_at(t + std::f64::consts::PI / 4.0))
        .expect("material live");
    let after_quarter = assets.get(m).expect("material live");
    let i0 = f32::from_bits(base.intensity.bits);
    let i1 = f32::from_bits(after_quarter.intensity.bits);
    assert!((i0 - i1).abs() < 1e-5);
    drive_frame(&mut assets, m, scalars_at(t + std::f64::consts::PI)).expect("material live");
    let after_pi = assets.get(m).expect("material live");
    let v0 = f32::from_bits(base.vignette.bits);
    let v1 = f32::from_bits(after_pi.vignette.bits);
    assert!((v0 - v1).abs() < 1e-5);
}

#[test]
fn two_frames_change_the_uniforms() {
    // Allocate a 512 x 512 target, bind it into a composite material and
    // drive two frames, one at t = 0 and one at t = pi / 8.
    let mut alloc = TargetAllocator::new();
    let mut assets = MaterialAssets::new();
    let chain = PostProcessChain::build(
        &mut alloc,
        &mut assets,
        512,
        512,
        TextureFormat::Bgra8UnormSrgb,
        white(),
        zero_scalars(),
        -1,
        0,
        RenderLayer::layer(1),
    )
    .expect("valid configuration");

    let frame0 = scalars_at(0.0);
    drive_frame(&mut assets, chain.material, frame0).expect("material live");
    let seen0 = assets.get(chain.material).expect("material live");
    // sin(0) / 500 = 0 and (sin(0) + 1) / 2 = 1/2.
    assert_eq!(seen0.intensity.bits, 0.0f32.to_bits());
    assert_eq!(seen0.vignette.bits, 0.5f32.to_bits());

    let t1 = std::f64::consts::PI / 8.0;
    let frame1 = scalars_at(t1);
    drive_frame(&mut assets, chain.material, frame1).expect("material live");
    let seen1 = assets.get(chain.material).expect("material live");
    assert_eq!(seen1.intensity.bits, frame1.intensity.bits);
    assert_eq!(seen1.vignette.bits, frame1.vignette.bits);
    // The uniforms moved between the frames, as the formulas dictate.
    assert_ne!(seen1.vignette.bits, seen0.vignette.bits);
    let v1 = f32::from_bits(seen1.vignette.bits);
    assert!((v1 - 0.8535534).abs() < 1e-5);
    // The binding itself is untouched by the driver.
    assert_eq!(seen1.color_texture, Some(chain.target));
    assert_eq!(seen1.color, white());
}
