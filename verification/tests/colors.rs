use std::cell::RefCell;
use wshowkeys::cairo_utils::{rgba_channels, SetSourceU32, Subpixel, SubpixelOrder, ToSubpixelOrder};

#[test]
fn channels_of_colours() {
    assert_eq!(rgba_channels(0x000000CC), (0, 0, 0, 0xCC));
    assert_eq!(rgba_channels(0xAAAAAAFF), (0xAA, 0xAA, 0xAA, 0xFF));
    assert_eq!(rgba_channels(0x12345678), (0x12, 0x34, 0x56, 0x78));
}

#[test]
fn channels_recompose() {
    for c in [0u32, 1, 0xFFFFFFFF, 0x12345678, 0xCAFEBABE] {
        let (r, g, b, a) = rgba_channels(c);
        assert_eq!(((r as u32) << 24) | ((g as u32) << 16) | ((b as u32) << 8) | a as u32, c);
    }
}

struct Recorder(RefCell<Vec<(u8, u8, u8, u8)>>);

impl SetSourceU32 for Recorder {
    fn set_source_channels(&self, red: u8, green: u8, blue: u8, alpha: u8) {
        self.0.borrow_mut().push((red, green, blue, alpha));
    }
}

#[test]
fn set_source_u32_splits_channels() {
    let rec = Recorder(RefCell::new(Vec::new()));
    rec.set_source_u32(0xFFFFFFFF);
    rec.set_source_u32(0x01020304);
    assert_eq!(*rec.0.borrow(), vec![(255, 255, 255, 255), (1, 2, 3, 4)]);
}

#[test]
fn subpixel_orders() {
    assert_eq!(Subpixel::HorizontalRgb.to_cairo_subpixel_order(), SubpixelOrder::Rgb);
    assert_eq!(Subpixel::HorizontalBgr.to_cairo_subpixel_order(), SubpixelOrder::Bgr);
    assert_eq!(Subpixel::VerticalRgb.to_cairo_subpixel_order(), SubpixelOrder::Vrgb);
    assert_eq!(Subpixel::VerticalBgr.to_cairo_subpixel_order(), SubpixelOrder::Vrgb);
    assert_eq!(Subpixel::Unknown.to_cairo_subpixel_order(), SubpixelOrder::Default);
    assert_eq!(Subpixel::NoLayout.to_cairo_subpixel_order(), SubpixelOrder::Default);
}
