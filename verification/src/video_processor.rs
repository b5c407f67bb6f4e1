//! What the colour converter is set up with.

use vstd::prelude::*;

use crate::error::code_bits;

verus! {

/// A colour conversion.
#[derive(Clone, Copy, PartialEq, Eq, Debug, Structural)]
pub enum ColorSpace {
    /// 8-bit RGB to 8-bit 4:2:0, BT.709, limited range.
    Rec709Sdr,
    /// Linear half-float RGB to 10-bit 4:2:0, BT.2020, PQ.
    Rec2020Pq,
}

/// What the converter is told about the pictures.
#[derive(Clone, Copy, PartialEq, Eq, Debug, Structural)]
pub struct ContentDesc {
    pub input_width: u32,
    pub input_height: u32,
    pub output_width: u32,
    pub output_height: u32,
    pub rate_numerator: u32,
    pub rate_denominator: u32,
}

/// How the colour spaces are set: as bit fields, or by their DXGI numbers.
#[derive(Clone, Copy, PartialEq, Eq, Debug, Structural)]
pub enum ColorSetup {
    BitFields { stream: u32, output: u32 },
    Dxgi { stream_space: i32, output_space: i32 },
}

/// A rectangle given by its edges.
#[derive(Clone, Copy, PartialEq, Eq, Debug, Structural)]
pub struct Edges {
    pub left: i32,
    pub top: i32,
    pub right: i32,
    pub bottom: i32,
}

/// Matrix BT.709, nominal range 0 to 255. From the lowest bit on, the fields are:
/// usage, RGB range, matrix and xvYCC with one bit each, and the nominal range with
/// two, where 1 is the range 16 to 235 and 2 the range 0 to 255.
pub const BITS_709_FULL: u32 = 0b10_0100;

/// Matrix BT.709, nominal range 16 to 235.
pub const BITS_709_STUDIO: u32 = 0b01_0100;

/// Nominal range 0 to 255.
pub const BITS_FULL: u32 = 0b10_0000;

/// Nominal range 16 to 235.
pub const BITS_STUDIO: u32 = 0b01_0000;

/// Linear RGB with BT.709 primaries.
pub const DXGI_SCRGB: i32 = 1;

/// Studio-range YCbCr with BT.2020 primaries and PQ.
pub const DXGI_BT2020_PQ: i32 = 13;

/// A converter for pictures of one size.
#[derive(Clone, Copy, PartialEq, Eq, Debug, Structural)]
pub struct VideoProcessor {
    pub width: u32,
    pub height: u32,
    pub content: ContentDesc,
    pub color: ColorSetup,
    pub full: Edges,
}

/// The 32 bits of an unsigned number read as a signed one.
pub open spec fn signed_bits(v: u32) -> int {
    if v >= 0x8000_0000 {
        v - 0x1_0000_0000
    } else {
        v as int
    }
}

fn signed(v: u32) -> (s: i32)
    ensures
        s == signed_bits(v),
{
    let s: i32 = v as i32;
    assert(v < 0x8000_0000 ==> s == v) by (bit_vector)
        requires
            s == v as i32,
    ;
    assert(v >= 0x8000_0000 ==> s == v - 0x1_0000_0000) by (bit_vector)
        requires
            s == v as i32,
    ;
    s
}

/// How the colour spaces of a conversion are set; the DXGI numbers need a newer
/// video context.
pub open spec fn color_setup_of(cs: ColorSpace, newer_context: bool) -> ColorSetup {
    match cs {
        ColorSpace::Rec709Sdr => ColorSetup::BitFields {
            stream: BITS_709_FULL,
            output: BITS_709_STUDIO,
        },
        ColorSpace::Rec2020Pq => if newer_context {
            ColorSetup::Dxgi { stream_space: DXGI_SCRGB, output_space: DXGI_BT2020_PQ }
        } else {
            ColorSetup::BitFields { stream: BITS_FULL, output: BITS_STUDIO }
        },
    }
}

/// A converter for pictures of the given size.
pub open spec fn processor_of(
    width: u32,
    height: u32,
    cs: ColorSpace,
    newer_context: bool,
) -> VideoProcessor {
    VideoProcessor {
        width,
        height,
        content: ContentDesc {
            input_width: width,
            input_height: height,
            output_width: width,
            output_height: height,
            rate_numerator: 60,
            rate_denominator: 1,
        },
        color: color_setup_of(cs, newer_context),
        full: Edges {
            left: 0,
            top: 0,
            right: signed_bits(width) as i32,
            bottom: signed_bits(height) as i32,
        },
    }
}

impl VideoProcessor {
    /// What a converter for pictures of the given size is set up with: it
    /// neither scales nor crops. `newer_context` says whether the video context
    /// takes DXGI colour spaces.
    pub fn new(width: u32, height: u32, cs: ColorSpace, newer_context: bool) -> (vp: Self)
        ensures
            vp.width == width,
            vp.height == height,
            vp.content == (ContentDesc {
                input_width: width,
                input_height: height,
                output_width: width,
                output_height: height,
                rate_numerator: 60,
                rate_denominator: 1,
            }),
            vp.color == color_setup_of(cs, newer_context),
            vp.full.left == 0,
            vp.full.top == 0,
            vp.full.right == signed_bits(width),
            vp.full.bottom == signed_bits(height),
            vp == processor_of(width, height, cs, newer_context),
    {
        let color = match cs {
            ColorSpace::Rec709Sdr => ColorSetup::BitFields {
                stream: BITS_709_FULL,
                output: BITS_709_STUDIO,
            },
            ColorSpace::Rec2020Pq => if newer_context {
                ColorSetup::Dxgi { stream_space: DXGI_SCRGB, output_space: DXGI_BT2020_PQ }
            } else {
                ColorSetup::BitFields { stream: BITS_FULL, output: BITS_STUDIO }
            },
        };
        VideoProcessor {
            width,
            height,
            content: ContentDesc {
                input_width: width,
                input_height: height,
                output_width: width,
                output_height: height,
                rate_numerator: 60,
                rate_denominator: 1,
            },
            color,
            full: Edges { left: 0, top: 0, right: signed(width), bottom: signed(height) },
        }
    }

    /// The width of the pictures.
    pub fn width(&self) -> (w: u32)
        ensures
            w == self.width,
    {
        self.width
    }

    /// The height of the pictures.
    pub fn height(&self) -> (h: u32)
        ensures
            h == self.height,
    {
        self.height
    }
}

/// The edges of a picture hold its size: read as unsigned, they are the width
/// and the height.
pub proof fn law_edges_hold_the_size(v: u32, edge: i32)
    requires
        edge == signed_bits(v),
    ensures
        code_bits(edge) == v,
{
}

/// Eight-bit pictures go from BT.709 in the full range to BT.709 in the studio range.
/// Ten-bit ones go from linear RGB to BT.2020 with PQ where the context takes DXGI
/// numbers, and from the full to the studio range otherwise. In the bit fields, bit 2
/// is the matrix, bits 4 and 5 are the nominal range, and nothing else is set.
pub proof fn law_colours_of_a_conversion(cs: ColorSpace, newer_context: bool)
    ensures
        match (cs, color_setup_of(cs, newer_context)) {
            (ColorSpace::Rec709Sdr, ColorSetup::BitFields { stream, output }) => {
                &&& stream == 0x4 + 2 * 0x10
                &&& output == 0x4 + 1 * 0x10
            },
            (ColorSpace::Rec709Sdr, ColorSetup::Dxgi { .. }) => false,
            (ColorSpace::Rec2020Pq, ColorSetup::BitFields { stream, output }) => {
                &&& !newer_context
                &&& stream == 2 * 0x10
                &&& output == 1 * 0x10
            },
            (ColorSpace::Rec2020Pq, ColorSetup::Dxgi { stream_space, output_space }) => {
                &&& newer_context
                &&& stream_space == 1
                &&& output_space == 13
            },
        },
{
}

/// The signed reading of a number differs from it by a multiple of 2 to the power of
/// 32, so a size that fits is itself.
pub proof fn law_sizes_are_edges(v: u32)
    ensures
        (v - signed_bits(v)) % 0x1_0000_0000 == 0,
        -0x8000_0000 <= signed_bits(v) <= 0x7fff_ffff,
        v <= 0x7fff_ffff ==> signed_bits(v) == v,
{
}

/// A converter neither scales nor crops: what goes in and what comes out have the size of the
/// picture, which it covers from edge to edge, at 60 pictures a second.
pub proof fn law_pictures_keep_their_size(
    width: u32,
    height: u32,
    cs: ColorSpace,
    newer_context: bool,
)
    ensures
        ({
            let vp = processor_of(width, height, cs, newer_context);
            &&& vp.width == width && vp.height == height
            &&& vp.content.input_width == width && vp.content.output_width == width
            &&& vp.content.input_height == height && vp.content.output_height == height
            &&& vp.content.rate_numerator == 60 * vp.content.rate_denominator
            &&& vp.content.rate_denominator == 1
            &&& vp.full.left == 0 && vp.full.top == 0
            &&& code_bits(vp.full.right) == width
            &&& code_bits(vp.full.bottom) == height
            &&& vp.color == color_setup_of(cs, newer_context)
        }),
{
}

} // verus!
