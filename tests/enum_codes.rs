use gfx_types::damage::{DamageHint, DamageRegion};
use gfx_types::display::{ConnectorType, DisplayInfo, DisplayMode, VsyncMode};
use gfx_types::geometry::{Insets, Line, Point, Rect, Size};
use gfx_types::input::{CursorHotspot, CursorType, GestureType, SwipeDirection, TouchId, TouchPhase};
use gfx_types::render::{BlitParams, ClipRect, PipelineState, RasterOp, RenderOp};
use gfx_types::text::{FontStyle, FontWeight, TextDecoration};
use gfx_types::window::{BufferMode, LayerType, ResizeEdge, SurfaceConfig, WindowFlags, WindowState};
use gfx_types::{BufferHandle, PixelFormat};

#[test]
fn cursor_codes() {
    assert_eq!(CursorType::from_u8(255), Some(CursorType::Hidden));
    assert_eq!(CursorType::from_u8(8), None);
    assert_eq!(CursorType::NotAllowed.name(), "not-allowed");
    assert!(CursorType::ResizeN.is_resize());
    assert!(CursorType::ResizeNWSE.is_resize());
    assert!(!CursorType::Grab.is_resize());
    assert_eq!(CursorType::Pointer.default_hotspot(), CursorHotspot::new(0, 0));
    assert_eq!(CursorType::Text.default_hotspot(), CursorHotspot::new(8, 8));
    assert_eq!(Point::from(CursorHotspot::new(3, 4)), Point::new(3, 4));
}

#[test]
fn damage_regions() {
    let a = DamageRegion::from_coords(0, 0, 10, 10);
    let b = DamageRegion::new(Rect::new(5, 5, 10, 10));
    assert_eq!(a.union(&b).rect, Rect::new(0, 0, 15, 15));
    assert_eq!(a.intersection(&b), Some(DamageRegion::from_coords(5, 5, 5, 5)));
    assert_eq!(a.intersection(&DamageRegion::from_coords(20, 20, 1, 1)), None);
    assert!(DamageRegion::EMPTY().is_empty());
    assert_eq!(a.area(), 100);
    assert_eq!(DamageHint::from_u8(1), Some(DamageHint::Unchanged));
    assert!(!DamageHint::Unchanged.needs_compose());
    assert_eq!(DamageHint::from_u8(4), None);
}

#[test]
fn display_records() {
    let d = DisplayInfo::new(1, 1920, 1080, 59940, PixelFormat::ARGB8888, 7680);
    assert_eq!(d.refresh_rate_hz(), 59);
    assert_eq!(d.framebuffer_size(), 7680 * 1080);
    assert_eq!(d.as_buffer_descriptor().pixel_offset(1, 1), 7684);
    assert_eq!(d.size(), Size::new(1920, 1080));
    let mut m = DisplayMode::new(800, 600, 60000);
    assert!(!m.is_preferred());
    m.flags = DisplayMode::FLAG_PREFERRED | DisplayMode::FLAG_INTERLACED;
    assert!(m.is_preferred() && m.is_interlaced() && !m.is_current());
    assert_eq!(VsyncMode::from_u8(3), Some(VsyncMode::Mailbox));
    assert_eq!(ConnectorType::from_u8(16), Some(ConnectorType::USBC));
    assert_eq!(ConnectorType::from_u8(17), None);
    assert_eq!(ConnectorType::DVII.name(), "DVI-I");
    assert!(ConnectorType::HDMIA.supports_audio() && !ConnectorType::VGA.is_digital());
}

#[test]
fn touch_and_gestures() {
    assert!(!TouchId::INVALID().is_valid());
    assert!(TouchId::new(0).is_valid());
    assert!(TouchPhase::Move.is_active() && TouchPhase::Cancel.is_end());
    assert_eq!(TouchPhase::from_u8(4), None);
    assert_eq!(GestureType::Pinch.min_touches(), 2);
    assert_eq!(GestureType::DoubleTap.name(), "Double Tap");
    assert_eq!(SwipeDirection::Left.opposite(), SwipeDirection::Right);
    assert!(SwipeDirection::Up.is_vertical());
}

#[test]
fn clip_rects() {
    let a = ClipRect::new(Rect::new(0, 0, 10, 10));
    let b = ClipRect::new(Rect::new(20, 20, 10, 10));
    assert!(ClipRect::NONE().contains(-100, 5000));
    assert!(a.contains(9, 9) && !a.contains(10, 9));
    assert_eq!(a.intersect(&ClipRect::NONE()), a);
    let nothing = a.intersect(&b);
    assert!(nothing.enabled && nothing.is_empty());
    assert!(!nothing.contains(0, 0));
}

#[test]
fn render_records() {
    let p = BlitParams::new(BufferHandle::new(1, 2), Rect::new(5, 5, 30, 40), -3, 7).with_alpha(9);
    assert_eq!(p.dst_rect(), Rect::new(-3, 7, 30, 40));
    assert_eq!(p.alpha, 9);
    assert_eq!(RenderOp::from_u8(10), Some(RenderOp::Restore));
    assert_eq!(RasterOp::from_u8(7), Some(RasterOp::SetAll));
    assert_eq!(RasterOp::NotSrc.name(), "Not Src");
    let s = PipelineState::new().with_antialias(true);
    assert!(s.antialias && s.global_alpha == 255);
}

#[test]
fn font_weights_snap_to_nearest() {
    assert_eq!(FontWeight::from_u16(0), FontWeight::Thin);
    assert_eq!(FontWeight::from_u16(150), FontWeight::Thin);
    assert_eq!(FontWeight::from_u16(151), FontWeight::ExtraLight);
    assert_eq!(FontWeight::from_u16(450), FontWeight::Normal);
    assert_eq!(FontWeight::from_u16(851), FontWeight::Black);
    assert_eq!(FontWeight::SemiBold.value(), 600);
    assert!(FontWeight::SemiBold.is_bold() && !FontWeight::Medium.is_bold());
    assert_eq!(FontStyle::from_u8(3), None);
    let d = TextDecoration::UNDERLINE().with(TextDecoration::LINE_THROUGH());
    assert!(d.has(TextDecoration::LINE_THROUGH()) && !d.has(TextDecoration::OVERLINE()));
}

#[test]
fn window_flags_and_states() {
    let f = WindowFlags::BORDERLESS() | WindowFlags::OVERLAY();
    assert!(f.is_overlay() && !f.has_decorations());
    assert_eq!(f.without(WindowFlags::BORDERLESS()).bits(), 512);
    assert_eq!(f.toggle(WindowFlags::OVERLAY()).bits(), 1);
    assert_eq!((!WindowFlags::NONE()).bits(), u32::MAX);
    assert_eq!(LayerType::from_u32(6), Some(LayerType::Cursor));
    assert_eq!(LayerType::from_u32(7), None);
    assert!(LayerType::Overlay.receives_input() && LayerType::Lock.blocks_below());
    assert!(LayerType::Background < LayerType::Cursor);
    assert!(!WindowState::Hidden.is_visible() && WindowState::TiledTop.is_tiled());
    assert_eq!(ResizeEdge::from_u8(9), Some(ResizeEdge::TopRight));
    assert_eq!(ResizeEdge::from_u8(3), None);
    assert!(ResizeEdge::BottomLeft.has_bottom() && ResizeEdge::BottomLeft.has_left());
    assert!(!ResizeEdge::BottomLeft.has_top());
    assert_eq!(BufferMode::Triple.buffer_count(), 3);
    assert_eq!(BufferMode::from_u8(0), None);
    assert_eq!(SurfaceConfig::new(10, 20).buffer_mode, BufferMode::Double);
}

#[test]
fn insets_and_lines() {
    let i = Insets::new(-1, 2, -3, 4);
    assert_eq!(i.abs(), Insets::new(1, 2, 3, 4));
    assert_eq!(i.max(0), Insets::new(0, 2, 0, 4));
    assert_eq!(i.horizontal(), 6);
    assert_eq!(i.vertical(), -4);
    assert_eq!(i + Insets::uniform(1), Insets::new(0, 3, -2, 5));
    assert!(Insets::ZERO().is_zero() && !i.is_non_negative());
    let l = Line::from_coords(0, 0, 3, 4);
    assert_eq!(l.length_squared(), 25);
    assert_eq!(l.reverse().start, Point::new(3, 4));
    assert_eq!((l.dx(), l.dy()), (3, 4));
    assert!(Line::from_coords(1, 1, 1, 1).is_point());
}

#[test]
fn size_operators() {
    assert_eq!(Size::new(5, 5) - Size::new(10, 2), Size::new(0, 3));
    assert_eq!(Size::new(3, 4) * 3, Size::new(9, 12));
    assert_eq!(Size::new(3, 4).max_side(), 4);
    assert_eq!(-Point::new(1, -2), Point::new(-1, 2));
    assert_eq!(Point::new(1, -2) * 3, Point::new(3, -6));
}
