//! Colours and subpixel layouts as the renderer needs them.

use vstd::prelude::*;

verus! {

/// The subpixel layout that an output reports.
#[derive(PartialEq, Eq, Clone, Copy, Debug, Structural)]
pub enum Subpixel {
    Unknown,
    NoLayout,
    HorizontalRgb,
    HorizontalBgr,
    VerticalRgb,
    VerticalBgr,
}

/// The subpixel order that font rendering is told to use.
#[derive(PartialEq, Eq, Clone, Copy, Debug, Structural)]
pub enum SubpixelOrder {
    Default,
    Rgb,
    Bgr,
    Vrgb,
    Vbgr,
}

/// The order used for a layout: the horizontal layouts keep their order,
/// both vertical layouts render as vertical RGB, and the rest use the
/// default.
pub open spec fn subpixel_order_of(s: Subpixel) -> SubpixelOrder {
    match s {
        Subpixel::HorizontalRgb => SubpixelOrder::Rgb,
        Subpixel::HorizontalBgr => SubpixelOrder::Bgr,
        Subpixel::VerticalRgb => SubpixelOrder::Vrgb,
        Subpixel::VerticalBgr => SubpixelOrder::Vrgb,
        _ => SubpixelOrder::Default,
    }
}

/// Turns an output's subpixel layout into a font rendering order.
pub trait ToSubpixelOrder {
    fn to_cairo_subpixel_order(&self) -> SubpixelOrder;
}

impl ToSubpixelOrder for Subpixel {
    fn to_cairo_subpixel_order(&self) -> (r: SubpixelOrder)
        ensures
            r == subpixel_order_of(*self),
    {
        match self {
            Subpixel::HorizontalRgb => SubpixelOrder::Rgb,
            Subpixel::HorizontalBgr => SubpixelOrder::Bgr,
            Subpixel::VerticalRgb => SubpixelOrder::Vrgb,
            Subpixel::VerticalBgr => SubpixelOrder::Vrgb,
            _ => SubpixelOrder::Default,
        }
    }
}

/// The four channels of a colour written `0xRRGGBBAA`: red in the top byte,
/// alpha in the bottom one.
pub fn rgba_channels(source: u32) -> (r: (u8, u8, u8, u8))
    ensures
        r.0 == source / 0x100_0000,
        r.1 == (source / 0x1_0000) % 0x100,
        r.2 == (source / 0x100) % 0x100,
        r.3 == source % 0x100,
{
    let red = ((source >> 24) & 0xFF) as u8;
    let green = ((source >> 16) & 0xFF) as u8;
    let blue = ((source >> 8) & 0xFF) as u8;
    let alpha = (source & 0xFF) as u8;
    assert(((source >> 24) & 0xFF) == source / 0x100_0000) by (bit_vector);
    assert(((source >> 16) & 0xFF) == (source / 0x1_0000) % 0x100) by (bit_vector);
    assert(((source >> 8) & 0xFF) == (source / 0x100) % 0x100) by (bit_vector);
    assert((source & 0xFF) == source % 0x100) by (bit_vector);
    (red, green, blue, alpha)
}

/// A drawing target whose source colour can be set from a `0xRRGGBBAA`
/// value. Implementors take the colour channel by channel; each channel is
/// a byte, full intensity at `255`.
pub trait SetSourceU32 {
    fn set_source_channels(&self, red: u8, green: u8, blue: u8, alpha: u8);

    fn set_source_u32(&self, source: u32) {
        let (red, green, blue, alpha) = rgba_channels(source);
        self.set_source_channels(red, green, blue, alpha);
    }
}

/// Horizontal layouts keep their own order, both vertical layouts render
/// as vertical RGB, and a layout that names no order (unknown, or none)
/// gets the default.
pub proof fn lemma_subpixel_orders(s: Subpixel)
    ensures
        s == Subpixel::HorizontalRgb <==> subpixel_order_of(s) == SubpixelOrder::Rgb,
        s == Subpixel::HorizontalBgr <==> subpixel_order_of(s) == SubpixelOrder::Bgr,
        s == Subpixel::VerticalRgb || s == Subpixel::VerticalBgr <==> subpixel_order_of(s) == SubpixelOrder::Vrgb,
        s == Subpixel::Unknown || s == Subpixel::NoLayout <==> subpixel_order_of(s) == SubpixelOrder::Default,
        subpixel_order_of(s) != SubpixelOrder::Vbgr,
{
}

/// Every colour is the sum of its channels in their places: splitting a
/// colour loses nothing.
pub proof fn lemma_channels_recompose(source: u32)
    ensures
        source == (source / 0x100_0000) * 0x100_0000 + ((source / 0x1_0000) % 0x100) * 0x1_0000
            + ((source / 0x100) % 0x100) * 0x100 + source % 0x100,
{
    assert(source == (source / 0x100_0000) * 0x100_0000 + ((source / 0x1_0000) % 0x100) * 0x1_0000
        + ((source / 0x100) % 0x100) * 0x100 + source % 0x100) by (bit_vector);
}

} // verus!
