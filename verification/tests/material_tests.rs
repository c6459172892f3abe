use post_process::material::{
    ColorBits, Custom2DMaterial, MaterialAssets, MaterialError, MaterialHandle, ScalarBits,
    ScalarParam,
};
use post_process::target::TargetHandle;

fn white() -> ColorBits {
    let one = ScalarBits { bits: 1.0f32.to_bits() };
    ColorBits { red: one, green: one, blue: one, alpha: one }
}

#[test]
fn fragment_shader_path() {
    assert_eq!(Custom2DMaterial::fragment_shader(), "shaders/custom_2d_material.wgsl");
}

#[test]
fn set_scalar_touches_only_the_named_uniform() {
    let mut m = Custom2DMaterial::new(
        white(),
        ScalarBits { bits: 0 },
        ScalarBits { bits: 2.0f32.to_bits() },
        None,
    );
    m.set_scalar(ScalarParam::Intensity, ScalarBits { bits: 42 });
    assert_eq!(m.intensity.bits, 42);
    assert_eq!(m.vignette.bits, 2.0f32.to_bits());
    assert_eq!(m.color, white());
    m.set_scalar(ScalarParam::Vignette, ScalarBits { bits: 7 });
    assert_eq!(m.intensity.bits, 42);
    assert_eq!(m.vignette.bits, 7);
}

#[test]
fn set_texture_rebinds() {
    let mut m = Custom2DMaterial::new(
        white(),
        ScalarBits { bits: 0 },
        ScalarBits { bits: 0 },
        None,
    );
    m.set_texture(Some(TargetHandle { id: 3 }));
    assert_eq!(m.color_texture, Some(TargetHandle { id: 3 }));
    assert_eq!(m.intensity.bits, 0);
}

#[test]
fn assets_add_and_get() {
    let mut assets = MaterialAssets::new();
    let m = Custom2DMaterial::new(
        white(),
        ScalarBits { bits: 5 },
        ScalarBits { bits: 6 },
        None,
    );
    let h = assets.add(m);
    assert_eq!(h.id, 0);
    let got = assets.get(h).expect("live handle");
    assert_eq!(got, m);
}

#[test]
fn get_unknown_handle_is_none() {
    let assets = MaterialAssets::new();
    assert!(assets.get(MaterialHandle { id: 0 }).is_none());
}

#[test]
fn released_handle_is_not_found() {
    let mut assets = MaterialAssets::new();
    let m = Custom2DMaterial::new(
        white(),
        ScalarBits { bits: 0 },
        ScalarBits { bits: 0 },
        None,
    );
    let h = assets.add(m);
    assert!(assets.release(h).is_ok());
    assert!(assets.get(h).is_none());
    let r = assets.set_scalar(h, ScalarParam::Intensity, ScalarBits { bits: 1 });
    assert_eq!(r, Err(MaterialError::HandleNotFound));
    assert_eq!(assets.release(h), Err(MaterialError::HandleNotFound));
}

#[test]
fn set_scalar_leaves_other_instances_alone() {
    let mut assets = MaterialAssets::new();
    let a = assets.add(Custom2DMaterial::new(
        white(),
        ScalarBits { bits: 1 },
        ScalarBits { bits: 2 },
        None,
    ));
    let b = assets.add(Custom2DMaterial::new(
        white(),
        ScalarBits { bits: 3 },
        ScalarBits { bits: 4 },
        None,
    ));
    assert!(assets.set_scalar(a, ScalarParam::Vignette, ScalarBits { bits: 9 }).is_ok());
    let got_a = assets.get(a).expect("live handle");
    let got_b = assets.get(b).expect("live handle");
    assert_eq!(got_a.vignette.bits, 9);
    assert_eq!(got_a.intensity.bits, 1);
    assert_eq!(got_b.intensity.bits, 3);
    assert_eq!(got_b.vignette.bits, 4);
}
