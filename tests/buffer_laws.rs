use gfx_types::buffer::{BufferDescriptor, BufferHandle, BufferRegion, BufferView, BufferViewMut};
use gfx_types::color::PixelFormat;
use gfx_types::geometry::Rect;

#[test]
fn argb_offset_formula() {
    for (w, h) in [(1u32, 1u32), (7, 3), (100, 100), (1920, 1080)] {
        let d = BufferDescriptor::new(w, h, PixelFormat::ARGB8888);
        for y in [0, h / 2, h - 1] {
            for x in [0, w / 2, w - 1] {
                assert_eq!(d.pixel_offset(x, y), (y * w * 4 + x * 4) as usize);
            }
        }
    }
}

#[test]
fn hundred_square_descriptor() {
    let d = BufferDescriptor::new(100, 100, PixelFormat::ARGB8888);
    assert_eq!(d.pixel_offset(0, 0), 0);
    assert_eq!(d.pixel_offset(1, 0), 4);
    assert_eq!(d.pixel_offset(0, 1), 400);
    assert_eq!(d.size_bytes(), 40000);
}

#[test]
fn padded_stride_offsets() {
    let d = BufferDescriptor::with_stride(10, 4, 64, PixelFormat::RGB888);
    assert_eq!(d.pixel_offset(3, 2), 2 * 64 + 3 * 3);
    assert_eq!(d.bytes_per_row(), 30);
    assert_eq!(d.row_padding(), 34);
    assert_eq!(d.size_bytes(), 256);
}

#[test]
fn sub_region_inside() {
    let d = BufferDescriptor::new(100, 50, PixelFormat::ARGB8888);
    let (sub, off) = d.sub_region(Rect::new(10, 5, 20, 10)).unwrap();
    assert_eq!(sub, BufferDescriptor::with_stride(20, 10, 400, PixelFormat::ARGB8888));
    assert_eq!(off, 5 * 400 + 10 * 4);
    assert!(d.sub_region(Rect::new(0, 0, 100, 50)).is_some());
}

#[test]
fn sub_region_rejects_outside() {
    let d = BufferDescriptor::new(100, 50, PixelFormat::ARGB8888);
    assert_eq!(d.sub_region(Rect::new(-1, 0, 10, 10)), None);
    assert_eq!(d.sub_region(Rect::new(0, -1, 10, 10)), None);
    assert_eq!(d.sub_region(Rect::new(91, 0, 10, 10)), None);
    assert_eq!(d.sub_region(Rect::new(0, 41, 10, 10)), None);
    assert_eq!(d.sub_region(Rect::new(10, 0, u32::MAX, 1)), None);
}

#[test]
fn handle_packs_generation_high() {
    let h = BufferHandle::new(42, 1);
    assert_eq!(h.raw(), (1u64 << 32) | 42);
    assert_eq!(h.id(), 42);
    assert_eq!(h.generation(), 1);
    let h = BufferHandle::from_id_gen(u32::MAX, u32::MAX);
    assert_eq!(h.as_u64(), u64::MAX);
    assert_eq!((h.id(), h.generation()), (u32::MAX, u32::MAX));
    assert!(BufferHandle::INVALID().is_invalid());
    assert_eq!(u64::from(BufferHandle::from(7u64)), 7);
}

#[test]
fn region_from_rect_clamps_origin_only() {
    let r = BufferRegion::from_rect(Rect::new(-10, 5, 30, 40));
    assert_eq!(r, BufferRegion::new(0, 5, 30, 40));
    assert_eq!(BufferRegion::new(1, 2, 3, 4).to_rect(), Rect::new(1, 2, 3, 4));
}

#[test]
fn region_contains_near_u32_max() {
    let r = BufferRegion::new(u32::MAX - 1, 0, 5, 1);
    assert!(r.contains(u32::MAX, 0));
    assert!(!r.contains(u32::MAX - 2, 0));
}

#[test]
fn view_refuses_short_memory() {
    let d = BufferDescriptor::new(4, 4, PixelFormat::Gray8);
    let small = [0u8; 15];
    assert!(BufferView::new(&small, d).is_none());
    let exact = [0u8; 16];
    assert!(BufferView::new(&exact, d).is_some());
}

#[test]
fn view_row_excludes_padding() {
    let d = BufferDescriptor::with_stride(2, 3, 4, PixelFormat::Gray8);
    let data: Vec<u8> = (0u8..12).collect();
    let v = BufferView::new(&data, d).unwrap();
    assert_eq!(v.row(1), Some(&[4u8, 5][..]));
    assert_eq!(v.row(3), None);
    assert_eq!(v.pixel_offset(1, 2), Some(9));
    assert_eq!(v.pixel_offset(2, 0), None);
}

#[test]
fn view_mut_fill_and_rows() {
    let d = BufferDescriptor::with_stride(2, 2, 3, PixelFormat::Gray8);
    let mut data = [9u8; 6];
    {
        let mut v = BufferViewMut::new(&mut data, d).unwrap();
        v.fill(7);
        assert_eq!(v.data(), &[7u8; 6][..]);
        let row = v.row_mut(1).unwrap();
        assert_eq!(row.len(), 2);
        row[0] = 1;
        row[1] = 2;
        assert!(v.row_mut(2).is_none());
    }
    assert_eq!(data, [7, 7, 7, 1, 2, 7]);
    let mut v = BufferViewMut::new(&mut data, d).unwrap();
    v.clear();
    assert_eq!(v.data(), &[0u8; 6][..]);
}
