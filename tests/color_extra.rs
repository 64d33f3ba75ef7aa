use gfx_types::color::{
    AlphaMode, BlendMode, Color, ColorSpace, PixelFormat, CATPPUCCIN_MOCHA, DRACULA, NORD,
};

#[test]
fn invert_keeps_alpha() {
    let inv = Color::rgb(100, 150, 200).invert();
    assert_eq!(inv, Color::rgb(155, 105, 55));
    assert_eq!(inv.alpha(), 255);
    assert_eq!(Color::argb(7, 0, 255, 1).invert(), Color::argb(7, 255, 0, 254));
}

#[test]
fn channels_round_trip_through_packing() {
    for (a, r, g, b) in [(0u8, 0u8, 0u8, 0u8), (255, 255, 255, 255), (1, 2, 3, 4), (128, 64, 32, 16)] {
        let c = Color::argb(a, r, g, b);
        assert_eq!(c.to_argb(), (a, r, g, b));
        assert_eq!(c.to_rgba(), (r, g, b, a));
        assert_eq!(c.to_rgb(), (r, g, b));
        assert_eq!(Color::rgba(r, g, b, a), c);
    }
    assert_eq!(Color::argb(0x12, 0x34, 0x56, 0x78).as_u32(), 0x1234_5678);
}

#[test]
fn channel_setters_replace_one_channel() {
    let c = Color::from_raw(0x1122_3344);
    assert_eq!(c.with_alpha(0xAA).0, 0xAA22_3344);
    assert_eq!(c.with_red(0xAA).0, 0x11AA_3344);
    assert_eq!(c.with_green(0xAA).0, 0x1122_AA44);
    assert_eq!(c.with_blue(0xAA).0, 0x1122_33AA);
}

#[test]
fn from_hex_ignores_top_byte() {
    assert_eq!(Color::from_hex(0x12FF_8040).0, 0xFFFF_8040);
    assert!(Color::from_hex(0).is_opaque());
    assert!(Color::TRANSPARENT().is_transparent());
}

#[test]
fn gray_has_equal_channels() {
    assert_eq!(Color::gray(77).0, 0xFF4D_4D4D);
}

#[test]
fn color_converts_to_and_from_u32() {
    assert_eq!(u32::from(Color::from(0xDEAD_BEEFu32)), 0xDEAD_BEEF);
}

#[test]
fn pixel_format_codes_round_trip() {
    for code in 0u32..10 {
        assert_eq!(PixelFormat::from_u32(code).unwrap().as_u32(), code);
    }
    assert_eq!(PixelFormat::from_u32(10), None);
    assert_eq!(PixelFormat::from_u32(u32::MAX), None);
    assert_eq!(PixelFormat::RGB565.as_u32(), 2);
    assert_eq!(PixelFormat::RGB565.name(), "RGB565");
}

#[test]
fn pixel_format_strides() {
    assert_eq!(PixelFormat::RGB888.min_stride(10), 30);
    assert_eq!(PixelFormat::RGB888.aligned_stride(10, 4), 32);
    assert_eq!(PixelFormat::ARGB8888.aligned_stride(10, 64), 64);
    assert_eq!(PixelFormat::Gray8.aligned_stride(16, 16), 16);
    assert_eq!(PixelFormat::Gray16.bits_per_pixel(), 16);
    assert!(PixelFormat::Alpha8.is_grayscale());
    assert!(!PixelFormat::ARGB8888.is_premultiplied());
}

#[test]
fn blend_mode_bands() {
    assert!(BlendMode::SourceOver.is_porter_duff());
    assert!(BlendMode::Clear.is_porter_duff());
    assert!(!BlendMode::Normal.is_porter_duff());
    assert!(BlendMode::Multiply.is_photoshop_style());
    assert!(BlendMode::Exclusion.is_photoshop_style());
    assert!(!BlendMode::Add.is_photoshop_style());
    assert!(!BlendMode::Add.is_porter_duff());
    assert!(!BlendMode::Clear.needs_alpha());
    assert!(BlendMode::Xor.needs_alpha());
}

#[test]
fn blend_mode_codes_round_trip() {
    for code in 0u8..=255 {
        match BlendMode::from_u8(code) {
            Some(m) => assert_eq!(m.as_u8(), code),
            None => assert!(!(code <= 10 || (20..=30).contains(&code) || code == 40 || code == 41)),
        }
    }
    assert_eq!(BlendMode::from_u8(11), None);
    assert_eq!(BlendMode::from_u8(41), Some(BlendMode::Subtract));
}

#[test]
fn alpha_mode_and_color_space() {
    assert_eq!(AlphaMode::from_u8(1), Some(AlphaMode::Premultiplied));
    assert_eq!(AlphaMode::from_u8(3), None);
    assert_eq!(AlphaMode::Opaque.name(), "Opaque");
    assert_eq!(ColorSpace::from_u8(5), Some(ColorSpace::Rec2020));
    assert_eq!(ColorSpace::from_u8(6), None);
    assert_eq!(ColorSpace::Rec709.name(), "Rec. 709");
    assert!(!ColorSpace::LinearRGB.is_gamma_corrected());
    assert!(ColorSpace::DisplayP3.is_wide_gamut());
    assert!(ColorSpace::Rec2020.is_hdr_capable());
    assert!(!ColorSpace::SRGB.is_hdr_capable());
}

#[test]
fn palettes_hold_their_colors() {
    let nord = NORD();
    assert_eq!(nord.name, "Nord");
    assert_eq!(nord.len(), 16);
    assert_eq!(nord.get(0), Some(Color(0xFF2E_3440)));
    assert_eq!(nord.get(16), None);
    assert_eq!(CATPPUCCIN_MOCHA().len(), 25);
    assert!(!DRACULA().is_empty());
}
