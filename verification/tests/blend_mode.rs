use sprite_ex::sprite::BlendMode;

#[test]
fn test_blend_mode_enum_int() {
    let blend_mode: usize = BlendMode::SoftLight.code() as usize;
    assert_eq!(
        31, blend_mode,
        "Something Wrong: BlendMode::SoftLight enum int not equals to 31."
    );
}

#[test]
fn test_blend_mode_codes_are_stable() {
    assert_eq!(BlendMode::Normal.code(), 0);
    assert_eq!(BlendMode::Darken.code(), 10);
    assert_eq!(BlendMode::Multiply.code(), 11);
    assert_eq!(BlendMode::ColorBurn.code(), 12);
    assert_eq!(BlendMode::Lighten.code(), 20);
    assert_eq!(BlendMode::Screen.code(), 21);
    assert_eq!(BlendMode::ColorDodge.code(), 22);
    assert_eq!(BlendMode::Addition.code(), 23);
    assert_eq!(BlendMode::Overlay.code(), 30);
    assert_eq!(BlendMode::SoftLight.code(), 31);
    assert_eq!(BlendMode::HardLight.code(), 32);
    assert_eq!(BlendMode::Difference.code(), 40);
    assert_eq!(BlendMode::Exclusion.code(), 41);
    assert_eq!(BlendMode::Subtract.code(), 42);
    assert_eq!(BlendMode::Divide.code(), 43);
    assert_eq!(BlendMode::Hue.code(), 50);
    assert_eq!(BlendMode::Saturation.code(), 51);
    assert_eq!(BlendMode::Color.code(), 52);
    assert_eq!(BlendMode::Luminosity.code(), 53);
}

#[test]
fn test_blend_mode_default_is_normal() {
    assert_eq!(BlendMode::default(), BlendMode::Normal);
}
