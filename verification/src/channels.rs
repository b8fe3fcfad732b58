//! Where the pixels of a format hold their channels.
//!
//! Direct3D names a format after its fields, from the most significant bits
//! down. Metal numbers the bits of each channel. The laws say that a sample of
//! the Metal texture finds every channel where Direct3D put it.

use crate::d3d::{
    D3DFMT_A16B16G16R16, D3DFMT_A16B16G16R16F, D3DFMT_A1R5G5B5, D3DFMT_A32B32G32R32F,
    D3DFMT_A4R4G4B4, D3DFMT_A8, D3DFMT_A8B8G8R8, D3DFMT_A8L8, D3DFMT_A8R8G8B8, D3DFMT_ATI1,
    D3DFMT_D15S1, D3DFMT_D16, D3DFMT_D16_LOCKABLE, D3DFMT_D24FS8, D3DFMT_D24S8, D3DFMT_D24X4S4,
    D3DFMT_D24X8, D3DFMT_D32, D3DFMT_D32F_LOCKABLE, D3DFMT_DF16, D3DFMT_DF24, D3DFMT_DXT1,
    D3DFMT_DXT2, D3DFMT_DXT3, D3DFMT_DXT4, D3DFMT_DXT5, D3DFMT_G16R16, D3DFMT_G16R16F,
    D3DFMT_G32R32F, D3DFMT_INTZ, D3DFMT_L16, D3DFMT_L8, D3DFMT_R16F, D3DFMT_R32F, D3DFMT_R5G6B5,
    D3DFMT_R8G8B8, D3DFMT_UYVY, D3DFMT_V8U8, D3DFMT_X1R5G5B5, D3DFMT_X8B8G8R8, D3DFMT_X8R8G8B8,
    D3DFMT_YUY2,
};
use crate::format::{color_layout, depth_bytes, depth_layout, device_layout, name_of, Layout};
use crate::metal::{PixelFormat, Swizzle};
use crate::text::dec;
use vstd::prelude::*;

verus! {

// ---------------------------------------------------------------------------
// Direct3D
// ---------------------------------------------------------------------------

/// How the bits of a channel stand for a number.
pub enum Coding {
    Unorm,
    Snorm,
    Float,
}

/// Where the value of a channel comes from: the bits from `low` on, or a
/// constant.
pub enum Source {
    Bits { low: nat, width: nat, coding: Coding },
    Zero,
    One,
}

/// The channel of a colour.
pub enum Channel {
    Red,
    Green,
    Blue,
    Alpha,
}

/// The fields of a pixel, from the most significant bits down: a letter and a
/// number of bits. `X` is unused, `L` a luminance, `U` and `V` a vector.
pub open spec fn fields(d3d_format: u32) -> Option<Seq<(char, nat)>> {
    match d3d_format {
        D3DFMT_A8R8G8B8 => Some(seq![('A', 8), ('R', 8), ('G', 8), ('B', 8)]),
        D3DFMT_X8R8G8B8 => Some(seq![('X', 8), ('R', 8), ('G', 8), ('B', 8)]),
        D3DFMT_A8B8G8R8 => Some(seq![('A', 8), ('B', 8), ('G', 8), ('R', 8)]),
        D3DFMT_X8B8G8R8 => Some(seq![('X', 8), ('B', 8), ('G', 8), ('R', 8)]),
        D3DFMT_R8G8B8 => Some(seq![('R', 8), ('G', 8), ('B', 8)]),
        D3DFMT_A8 => Some(seq![('A', 8)]),
        D3DFMT_L8 => Some(seq![('L', 8)]),
        D3DFMT_A8L8 => Some(seq![('A', 8), ('L', 8)]),
        D3DFMT_R5G6B5 => Some(seq![('R', 5), ('G', 6), ('B', 5)]),
        D3DFMT_A1R5G5B5 => Some(seq![('A', 1), ('R', 5), ('G', 5), ('B', 5)]),
        D3DFMT_X1R5G5B5 => Some(seq![('X', 1), ('R', 5), ('G', 5), ('B', 5)]),
        D3DFMT_A4R4G4B4 => Some(seq![('A', 4), ('R', 4), ('G', 4), ('B', 4)]),
        D3DFMT_V8U8 => Some(seq![('V', 8), ('U', 8)]),
        D3DFMT_L16 => Some(seq![('L', 16)]),
        D3DFMT_G16R16 => Some(seq![('G', 16), ('R', 16)]),
        D3DFMT_A16B16G16R16 => Some(seq![('A', 16), ('B', 16), ('G', 16), ('R', 16)]),
        D3DFMT_R16F => Some(seq![('R', 16)]),
        D3DFMT_G16R16F => Some(seq![('G', 16), ('R', 16)]),
        D3DFMT_A16B16G16R16F => Some(seq![('A', 16), ('B', 16), ('G', 16), ('R', 16)]),
        D3DFMT_R32F => Some(seq![('R', 32)]),
        D3DFMT_G32R32F => Some(seq![('G', 32), ('R', 32)]),
        D3DFMT_A32B32G32R32F => Some(seq![('A', 32), ('B', 32), ('G', 32), ('R', 32)]),
        _ => None,
    }
}

/// How the fields of a format are coded.
pub open spec fn d3d_coding(d3d_format: u32) -> Coding {
    match d3d_format {
        D3DFMT_R16F
        | D3DFMT_G16R16F
        | D3DFMT_A16B16G16R16F
        | D3DFMT_R32F
        | D3DFMT_G32R32F
        | D3DFMT_A32B32G32R32F => Coding::Float,
        D3DFMT_V8U8 => Coding::Snorm,
        _ => Coding::Unorm,
    }
}

/// The bits of all fields.
pub open spec fn field_bits(f: Seq<(char, nat)>) -> nat
    decreases f.len(),
{
    if f.len() == 0 {
        0
    } else {
        f[0].1 + field_bits(f.skip(1))
    }
}

/// The lowest bit and the width of the field with that letter.
pub open spec fn field_at(f: Seq<(char, nat)>, letter: char) -> Option<(nat, nat)>
    decreases f.len(),
{
    if f.len() == 0 {
        None
    } else if f[0].0 == letter {
        Some((field_bits(f.skip(1)), f[0].1))
    } else {
        field_at(f.skip(1), letter)
    }
}

/// The letter of the field that a channel reads: its own, or that of the
/// luminance or the vector.
pub open spec fn letter_of(f: Seq<(char, nat)>, c: Channel) -> char {
    match c {
        Channel::Alpha => 'A',
        Channel::Red => if field_at(f, 'L') is Some {
            'L'
        } else if field_at(f, 'U') is Some {
            'U'
        } else {
            'R'
        },
        Channel::Green => if field_at(f, 'L') is Some {
            'L'
        } else if field_at(f, 'V') is Some {
            'V'
        } else {
            'G'
        },
        Channel::Blue => if field_at(f, 'L') is Some {
            'L'
        } else {
            'B'
        },
    }
}

/// What Direct3D samples as a channel. One that is not stored is one, but the
/// colour of a format of alpha alone is black.
pub open spec fn d3d_source(d3d_format: u32, c: Channel) -> Source {
    let f = fields(d3d_format)->0;
    match field_at(f, letter_of(f, c)) {
        Some((low, width)) => Source::Bits { low, width, coding: d3d_coding(d3d_format) },
        None => if f.len() == 1 && f[0].0 == 'A' {
            Source::Zero
        } else {
            Source::One
        },
    }
}

// ---------------------------------------------------------------------------
// Metal
// ---------------------------------------------------------------------------

/// Bits of a Metal pixel.
pub open spec fn bits(low: nat, width: nat, coding: Coding) -> Source {
    Source::Bits { low, width, coding }
}

/// The bits of a Metal pixel of single pixels.
pub open spec fn metal_bits(m: PixelFormat) -> nat {
    match m {
        PixelFormat::A8Unorm | PixelFormat::R8Unorm => 8,
        PixelFormat::Rg8Unorm
        | PixelFormat::Rg8Snorm
        | PixelFormat::B5G6R5Unorm
        | PixelFormat::Bgr5A1Unorm
        | PixelFormat::Abgr4Unorm
        | PixelFormat::R16Unorm
        | PixelFormat::R16Float => 16,
        PixelFormat::Bgra8Unorm
        | PixelFormat::Rgba8Unorm
        | PixelFormat::Rg16Unorm
        | PixelFormat::Rg16Float
        | PixelFormat::R32Float => 32,
        PixelFormat::Rgba16Unorm | PixelFormat::Rgba16Float | PixelFormat::Rg32Float => 64,
        PixelFormat::Rgba32Float => 128,
        _ => 0,
    }
}

/// A channel of a pixel with the four channels one after the other, `width` bits
/// each; the first `n` are stored.
pub open spec fn in_order(c: Channel, n: nat, width: nat, coding: Coding) -> Source {
    match c {
        Channel::Red => bits(0, width, coding),
        Channel::Green => if n >= 2 {
            bits(width, width, coding)
        } else {
            Source::Zero
        },
        Channel::Blue => if n >= 3 {
            bits(2 * width, width, coding)
        } else {
            Source::Zero
        },
        Channel::Alpha => if n >= 4 {
            bits(3 * width, width, coding)
        } else {
            Source::One
        },
    }
}

/// What Metal reads as a channel of a pixel.
pub open spec fn metal_source(m: PixelFormat, c: Channel) -> Source {
    match m {
        PixelFormat::A8Unorm => if c is Alpha {
            bits(0, 8, Coding::Unorm)
        } else {
            Source::Zero
        },
        PixelFormat::R8Unorm => in_order(c, 1, 8, Coding::Unorm),
        PixelFormat::Rg8Unorm => in_order(c, 2, 8, Coding::Unorm),
        PixelFormat::Rg8Snorm => in_order(c, 2, 8, Coding::Snorm),
        PixelFormat::Rgba8Unorm => in_order(c, 4, 8, Coding::Unorm),
        PixelFormat::R16Unorm => in_order(c, 1, 16, Coding::Unorm),
        PixelFormat::Rg16Unorm => in_order(c, 2, 16, Coding::Unorm),
        PixelFormat::Rgba16Unorm => in_order(c, 4, 16, Coding::Unorm),
        PixelFormat::R16Float => in_order(c, 1, 16, Coding::Float),
        PixelFormat::Rg16Float => in_order(c, 2, 16, Coding::Float),
        PixelFormat::Rgba16Float => in_order(c, 4, 16, Coding::Float),
        PixelFormat::R32Float => in_order(c, 1, 32, Coding::Float),
        PixelFormat::Rg32Float => in_order(c, 2, 32, Coding::Float),
        PixelFormat::Rgba32Float => in_order(c, 4, 32, Coding::Float),
        PixelFormat::Bgra8Unorm => match c {
            Channel::Blue => bits(0, 8, Coding::Unorm),
            Channel::Green => bits(8, 8, Coding::Unorm),
            Channel::Red => bits(16, 8, Coding::Unorm),
            Channel::Alpha => bits(24, 8, Coding::Unorm),
        },
        PixelFormat::B5G6R5Unorm => match c {
            Channel::Blue => bits(0, 5, Coding::Unorm),
            Channel::Green => bits(5, 6, Coding::Unorm),
            Channel::Red => bits(11, 5, Coding::Unorm),
            Channel::Alpha => Source::One,
        },
        PixelFormat::Bgr5A1Unorm => match c {
            Channel::Blue => bits(0, 5, Coding::Unorm),
            Channel::Green => bits(5, 5, Coding::Unorm),
            Channel::Red => bits(10, 5, Coding::Unorm),
            Channel::Alpha => bits(15, 1, Coding::Unorm),
        },
        PixelFormat::Abgr4Unorm => match c {
            Channel::Alpha => bits(0, 4, Coding::Unorm),
            Channel::Blue => bits(4, 4, Coding::Unorm),
            Channel::Green => bits(8, 4, Coding::Unorm),
            Channel::Red => bits(12, 4, Coding::Unorm),
        },
        _ => Source::Zero,
    }
}

/// The place of a channel in a swizzle.
pub open spec fn place(c: Channel) -> int {
    match c {
        Channel::Red => 0,
        Channel::Green => 1,
        Channel::Blue => 2,
        Channel::Alpha => 3,
    }
}

/// What a sample of a texture returns as a channel: the swizzle selects a
/// channel of the Metal pixel. The bits that the source pixel lacks are filled
/// with ones when it is uploaded.
pub open spec fn sampled(layout: Layout, c: Channel) -> Source {
    let m = layout.metal_pixel_format;
    let s = match layout.swizzle {
        None => metal_source(m, c),
        Some(swizzle) => match swizzle[place(c)] {
            Swizzle::Red => metal_source(m, Channel::Red),
            Swizzle::Green => metal_source(m, Channel::Green),
            Swizzle::Blue => metal_source(m, Channel::Blue),
            Swizzle::Alpha => metal_source(m, Channel::Alpha),
            Swizzle::One => Source::One,
        },
    };
    match s {
        Source::Bits { low, width, coding } => if low >= 8 * layout.bytes_per_pixel {
            Source::One
        } else {
            s
        },
        _ => s,
    }
}

// ---------------------------------------------------------------------------
// Colours
// ---------------------------------------------------------------------------

/// A sample of the texture behind a format finds each channel at the bits where
/// the format has it, and a constant where the format has none.
pub proof fn samples_find_the_channels(d3d_format: u32, c: Channel)
    requires
        fields(d3d_format) is Some,
    ensures
        color_layout(d3d_format) matches Some(layout) && sampled(layout, c) == d3d_source(
            d3d_format,
            c,
        ),
{
    reveal_with_fuel(field_at, 5);
    reveal_with_fuel(field_bits, 5);
}

/// The source pixel is as wide as its fields, and as wide as the Metal pixel
/// unless the upload widens it. A format has an alpha where it has the field.
pub proof fn pixels_are_as_wide_as_their_fields(d3d_format: u32)
    requires
        fields(d3d_format) is Some,
    ensures
        color_layout(d3d_format) matches Some(layout) && {
            &&& 8 * layout.bytes_per_pixel == field_bits(fields(d3d_format)->0)
            &&& layout.block_width == 1 && layout.block_height == 1
            &&& layout.block_bytes == layout.bytes_per_pixel
            &&& metal_bits(layout.metal_pixel_format) == if d3d_format == D3DFMT_R8G8B8 {
                32
            } else {
                field_bits(fields(d3d_format)->0)
            }
            &&& layout.has_alpha <==> field_at(fields(d3d_format)->0, 'A') is Some
        },
{
    reveal_with_fuel(field_at, 5);
    reveal_with_fuel(field_bits, 5);
}

/// Two formats that have the same texture have the same channels at the same
/// bits.
pub proof fn formats_that_share_a_texture_agree(a: u32, b: u32, c: Channel)
    requires
        fields(a) is Some,
        fields(b) is Some,
        color_layout(a)->0.metal_pixel_format == color_layout(b)->0.metal_pixel_format,
        color_layout(a)->0.swizzle == color_layout(b)->0.swizzle,
        color_layout(a)->0.bytes_per_pixel == color_layout(b)->0.bytes_per_pixel,
    ensures
        d3d_source(a, c) == d3d_source(b, c),
{
    samples_find_the_channels(a, c);
    samples_find_the_channels(b, c);
}

/// On a device without the packed formats the upload puts each channel in a byte
/// of its own, so the texture has all four in their own places, eight bits each.
pub proof fn widened_pixels_have_a_byte_for_each_channel(d3d_format: u32, c: Channel)
    requires
        color_layout(d3d_format) is Some,
        device_layout(d3d_format, false) != color_layout(d3d_format),
    ensures
        device_layout(d3d_format, false) matches Some(layout) && {
            &&& layout.swizzle is None
            &&& metal_source(layout.metal_pixel_format, c) matches Source::Bits { width, .. }
                && width == 8
            &&& fields(d3d_format) is Some
            &&& 8 * layout.bytes_per_pixel == field_bits(fields(d3d_format)->0) == 16
            &&& layout.has_alpha <==> field_at(fields(d3d_format)->0, 'A') is Some
        },
{
    reveal_with_fuel(field_at, 5);
    reveal_with_fuel(field_bits, 5);
}

/// The formats whose colour has no byte for each channel are exactly those that
/// need the packed formats of a device.
pub proof fn packed_pixels_are_widened(d3d_format: u32)
    requires
        fields(d3d_format) is Some,
    ensures
        device_layout(d3d_format, true) == color_layout(d3d_format),
        device_layout(d3d_format, false) != color_layout(d3d_format) <==> (field_at(
            fields(d3d_format)->0,
            'R',
        ) matches Some((_, width)) && width < 8),
{
    reveal_with_fuel(field_at, 5);
    reveal_with_fuel(field_bits, 5);
}

// ---------------------------------------------------------------------------
// Blocks
// ---------------------------------------------------------------------------

/// What a block of four by four pixels holds, in parts of eight bytes.
pub struct Parts {
    /// Two colours, and which mix of them each pixel has.
    pub colors: bool,
    /// Four bits of alpha for each pixel.
    pub listed_alpha: bool,
    /// Two alphas, and which mix of them each pixel has.
    pub mixed_alpha: bool,
    /// Two reds, and which mix of them each pixel has.
    pub mixed_red: bool,
}

/// The parts of a block format of Direct3D.
pub open spec fn d3d_parts(d3d_format: u32) -> Option<Parts> {
    let colors = Parts {
        colors: true,
        listed_alpha: false,
        mixed_alpha: false,
        mixed_red: false,
    };
    if d3d_format == D3DFMT_DXT1 {
        Some(colors)
    } else if d3d_format == D3DFMT_DXT2 || d3d_format == D3DFMT_DXT3 {
        Some(Parts { listed_alpha: true, ..colors })
    } else if d3d_format == D3DFMT_DXT4 || d3d_format == D3DFMT_DXT5 {
        Some(Parts { mixed_alpha: true, ..colors })
    } else if d3d_format == D3DFMT_ATI1 {
        Some(Parts { colors: false, mixed_red: true, ..colors })
    } else {
        None
    }
}

/// The parts of a block format of Metal.
pub open spec fn metal_parts(m: PixelFormat) -> Option<Parts> {
    match m {
        PixelFormat::Bc1Rgba => Some(
            Parts { colors: true, listed_alpha: false, mixed_alpha: false, mixed_red: false },
        ),
        PixelFormat::Bc2Rgba => Some(
            Parts { colors: true, listed_alpha: true, mixed_alpha: false, mixed_red: false },
        ),
        PixelFormat::Bc3Rgba => Some(
            Parts { colors: true, listed_alpha: false, mixed_alpha: true, mixed_red: false },
        ),
        PixelFormat::Bc4RUnorm => Some(
            Parts { colors: false, listed_alpha: false, mixed_alpha: false, mixed_red: true },
        ),
        _ => None,
    }
}

/// Eight bytes where a block has the part.
pub open spec fn part_bytes(has: bool) -> int {
    if has {
        8
    } else {
        0
    }
}

/// The texture behind a block format has the same parts in blocks of the same
/// size. Only a part for the alpha makes a format with alpha, and a single red
/// is a luminance.
pub proof fn blocks_hold_the_same_parts(d3d_format: u32)
    requires
        d3d_parts(d3d_format) is Some,
    ensures
        color_layout(d3d_format) matches Some(layout) && {
            let parts = d3d_parts(d3d_format)->0;
            &&& metal_parts(layout.metal_pixel_format) == Some(parts)
            &&& layout.block_width == 4 && layout.block_height == 4
            &&& layout.block_bytes == part_bytes(parts.colors) + part_bytes(parts.listed_alpha)
                + part_bytes(parts.mixed_alpha) + part_bytes(parts.mixed_red)
            &&& layout.has_alpha <==> parts.listed_alpha || parts.mixed_alpha
            &&& parts.colors ==> layout.swizzle is None
            &&& parts.mixed_red ==> layout.swizzle == Some(
                [Swizzle::Red, Swizzle::Red, Swizzle::Red, Swizzle::One],
            )
        },
{
}

/// A format has a texture exactly where it has fields or blocks, or is one of
/// the two that pack pairs of pixels, which keep their two bytes a pixel.
pub proof fn textures_stand_for_pixels_blocks_or_pairs(d3d_format: u32)
    ensures
        color_layout(d3d_format) is Some <==> fields(d3d_format) is Some || d3d_parts(
            d3d_format,
        ) is Some || d3d_format == D3DFMT_YUY2 || d3d_format == D3DFMT_UYVY,
        d3d_format == D3DFMT_YUY2 || d3d_format == D3DFMT_UYVY ==> {
            let layout = color_layout(d3d_format)->0;
            &&& metal_bits(layout.metal_pixel_format) == 16 == 8 * layout.bytes_per_pixel
            &&& layout.block_width == 1 && layout.block_height == 1 && layout.block_bytes == 2
            &&& layout.swizzle is None && !layout.has_alpha
        },
{
}

// ---------------------------------------------------------------------------
// Depth
// ---------------------------------------------------------------------------

/// The bits of depth, of stencil and of neither in a depth format.
pub open spec fn depth_fields(d3d_format: u32) -> Option<(nat, nat, nat)> {
    match d3d_format {
        D3DFMT_D16_LOCKABLE => Some((16, 0, 0)),
        D3DFMT_D32 => Some((32, 0, 0)),
        D3DFMT_D15S1 => Some((15, 1, 0)),
        D3DFMT_D24S8 => Some((24, 8, 0)),
        D3DFMT_D24X8 => Some((24, 0, 8)),
        D3DFMT_D24X4S4 => Some((24, 4, 4)),
        D3DFMT_D16 => Some((16, 0, 0)),
        D3DFMT_D32F_LOCKABLE => Some((32, 0, 0)),
        D3DFMT_D24FS8 => Some((24, 8, 0)),
        D3DFMT_INTZ => Some((24, 8, 0)),
        D3DFMT_DF24 => Some((24, 0, 8)),
        D3DFMT_DF16 => Some((16, 0, 0)),
        _ => None,
    }
}

/// The texture behind a depth format has a stencil where the format has one, and
/// a pixel is as wide as its fields.
pub proof fn depth_formats_keep_their_fields(d3d_format: u32)
    ensures
        depth_layout(d3d_format) is Some <==> depth_fields(d3d_format) is Some,
        depth_bytes(d3d_format) is Some <==> depth_fields(d3d_format) is Some,
        depth_fields(d3d_format) matches Some((depth, stencil, unused)) ==> {
            &&& depth_layout(d3d_format) == Some(
                if stencil > 0 {
                    PixelFormat::Depth32FloatStencil8
                } else {
                    PixelFormat::Depth32Float
                },
            )
            &&& 8 * depth_bytes(d3d_format)->0 == depth + stencil + unused
        },
{
}

// ---------------------------------------------------------------------------
// Names
// ---------------------------------------------------------------------------

/// The fields of a format, one after the other: the letter and the bits.
pub open spec fn spelled(f: Seq<(char, nat)>) -> Seq<char>
    decreases f.len(),
{
    if f.len() == 0 {
        Seq::empty()
    } else {
        seq![f[0].0] + dec(f[0].1) + spelled(f.skip(1))
    }
}

/// The number of a format that is named by four characters, the first lowest.
pub open spec fn four_characters(name: Seq<char>) -> int {
    name[0] as int + 0x100 * (name[1] as int) + 0x1_0000 * (name[2] as int) + 0x100_0000 * (
    name[3] as int)
}

/// Whether the name of a format spells its fields, and says where they are
/// floats.
pub open spec fn is_spelled(d3d_format: u32) -> bool {
    name_of(d3d_format) == spelled(fields(d3d_format)->0) + if d3d_coding(d3d_format) is Float {
        "F"@
    } else {
        ""@
    }
}

proof fn numbers_of_bits_are_written()
    ensures
        dec(1) == "1"@,
        dec(4) == "4"@,
        dec(5) == "5"@,
        dec(6) == "6"@,
        dec(8) == "8"@,
        dec(16) == "1"@ + "6"@,
        dec(32) == "3"@ + "2"@,
{
    reveal_with_fuel(dec, 3);
}

proof fn name_of_a8r8g8b8()
    ensures
        is_spelled(D3DFMT_A8R8G8B8),
{
    reveal_with_fuel(spelled, 6);
    numbers_of_bits_are_written();
    reveal_strlit("A8R8G8B8");
    reveal_strlit("8");
    reveal_strlit("");
    let f = fields(D3DFMT_A8R8G8B8)->0;
    assert(spelled(f) + ""@ =~= "A8R8G8B8"@);
}

proof fn name_of_x8r8g8b8()
    ensures
        is_spelled(D3DFMT_X8R8G8B8),
{
    reveal_with_fuel(spelled, 6);
    numbers_of_bits_are_written();
    reveal_strlit("X8R8G8B8");
    reveal_strlit("8");
    reveal_strlit("");
    let f = fields(D3DFMT_X8R8G8B8)->0;
    assert(spelled(f) + ""@ =~= "X8R8G8B8"@);
}

proof fn name_of_a8b8g8r8()
    ensures
        is_spelled(D3DFMT_A8B8G8R8),
{
    reveal_with_fuel(spelled, 6);
    numbers_of_bits_are_written();
    reveal_strlit("A8B8G8R8");
    reveal_strlit("8");
    reveal_strlit("");
    let f = fields(D3DFMT_A8B8G8R8)->0;
    assert(spelled(f) + ""@ =~= "A8B8G8R8"@);
}

proof fn name_of_x8b8g8r8()
    ensures
        is_spelled(D3DFMT_X8B8G8R8),
{
    reveal_with_fuel(spelled, 6);
    numbers_of_bits_are_written();
    reveal_strlit("X8B8G8R8");
    reveal_strlit("8");
    reveal_strlit("");
    let f = fields(D3DFMT_X8B8G8R8)->0;
    assert(spelled(f) + ""@ =~= "X8B8G8R8"@);
}

proof fn name_of_r8g8b8()
    ensures
        is_spelled(D3DFMT_R8G8B8),
{
    reveal_with_fuel(spelled, 6);
    numbers_of_bits_are_written();
    reveal_strlit("R8G8B8");
    reveal_strlit("8");
    reveal_strlit("");
    let f = fields(D3DFMT_R8G8B8)->0;
    assert(spelled(f) + ""@ =~= "R8G8B8"@);
}

proof fn name_of_a8()
    ensures
        is_spelled(D3DFMT_A8),
{
    reveal_with_fuel(spelled, 6);
    numbers_of_bits_are_written();
    reveal_strlit("A8");
    reveal_strlit("8");
    reveal_strlit("");
    let f = fields(D3DFMT_A8)->0;
    assert(spelled(f) + ""@ =~= "A8"@);
}

proof fn name_of_l8()
    ensures
        is_spelled(D3DFMT_L8),
{
    reveal_with_fuel(spelled, 6);
    numbers_of_bits_are_written();
    reveal_strlit("L8");
    reveal_strlit("8");
    reveal_strlit("");
    let f = fields(D3DFMT_L8)->0;
    assert(spelled(f) + ""@ =~= "L8"@);
}

proof fn name_of_a8l8()
    ensures
        is_spelled(D3DFMT_A8L8),
{
    reveal_with_fuel(spelled, 6);
    numbers_of_bits_are_written();
    reveal_strlit("A8L8");
    reveal_strlit("8");
    reveal_strlit("");
    let f = fields(D3DFMT_A8L8)->0;
    assert(spelled(f) + ""@ =~= "A8L8"@);
}

proof fn name_of_r5g6b5()
    ensures
        is_spelled(D3DFMT_R5G6B5),
{
    reveal_with_fuel(spelled, 6);
    numbers_of_bits_are_written();
    reveal_strlit("R5G6B5");
    reveal_strlit("5");
    reveal_strlit("6");
    reveal_strlit("");
    let f = fields(D3DFMT_R5G6B5)->0;
    assert(spelled(f) + ""@ =~= "R5G6B5"@);
}

proof fn name_of_a1r5g5b5()
    ensures
        is_spelled(D3DFMT_A1R5G5B5),
{
    reveal_with_fuel(spelled, 6);
    numbers_of_bits_are_written();
    reveal_strlit("A1R5G5B5");
    reveal_strlit("1");
    reveal_strlit("5");
    reveal_strlit("");
    let f = fields(D3DFMT_A1R5G5B5)->0;
    assert(spelled(f) + ""@ =~= "A1R5G5B5"@);
}

proof fn name_of_x1r5g5b5()
    ensures
        is_spelled(D3DFMT_X1R5G5B5),
{
    reveal_with_fuel(spelled, 6);
    numbers_of_bits_are_written();
    reveal_strlit("X1R5G5B5");
    reveal_strlit("1");
    reveal_strlit("5");
    reveal_strlit("");
    let f = fields(D3DFMT_X1R5G5B5)->0;
    assert(spelled(f) + ""@ =~= "X1R5G5B5"@);
}

proof fn name_of_a4r4g4b4()
    ensures
        is_spelled(D3DFMT_A4R4G4B4),
{
    reveal_with_fuel(spelled, 6);
    numbers_of_bits_are_written();
    reveal_strlit("A4R4G4B4");
    reveal_strlit("4");
    reveal_strlit("");
    let f = fields(D3DFMT_A4R4G4B4)->0;
    assert(spelled(f) + ""@ =~= "A4R4G4B4"@);
}

proof fn name_of_v8u8()
    ensures
        is_spelled(D3DFMT_V8U8),
{
    reveal_with_fuel(spelled, 6);
    numbers_of_bits_are_written();
    reveal_strlit("V8U8");
    reveal_strlit("8");
    reveal_strlit("");
    let f = fields(D3DFMT_V8U8)->0;
    assert(spelled(f) + ""@ =~= "V8U8"@);
}

proof fn name_of_l16()
    ensures
        is_spelled(D3DFMT_L16),
{
    reveal_with_fuel(spelled, 6);
    numbers_of_bits_are_written();
    reveal_strlit("L16");
    reveal_strlit("1");
    reveal_strlit("6");
    reveal_strlit("");
    let f = fields(D3DFMT_L16)->0;
    assert(spelled(f) + ""@ =~= "L16"@);
}

proof fn name_of_g16r16()
    ensures
        is_spelled(D3DFMT_G16R16),
{
    reveal_with_fuel(spelled, 6);
    numbers_of_bits_are_written();
    reveal_strlit("G16R16");
    reveal_strlit("1");
    reveal_strlit("6");
    reveal_strlit("");
    let f = fields(D3DFMT_G16R16)->0;
    assert(spelled(f) + ""@ =~= "G16R16"@);
}

proof fn name_of_a16b16g16r16()
    ensures
        is_spelled(D3DFMT_A16B16G16R16),
{
    reveal_with_fuel(spelled, 6);
    numbers_of_bits_are_written();
    reveal_strlit("A16B16G16R16");
    reveal_strlit("1");
    reveal_strlit("6");
    reveal_strlit("");
    let f = fields(D3DFMT_A16B16G16R16)->0;
    assert(spelled(f) + ""@ =~= "A16B16G16R16"@);
}

proof fn name_of_r16f()
    ensures
        is_spelled(D3DFMT_R16F),
{
    reveal_with_fuel(spelled, 6);
    numbers_of_bits_are_written();
    reveal_strlit("R16F");
    reveal_strlit("1");
    reveal_strlit("6");
    reveal_strlit("F");
    reveal_strlit("");
    let f = fields(D3DFMT_R16F)->0;
    assert(spelled(f) + "F"@ =~= "R16F"@);
}

proof fn name_of_g16r16f()
    ensures
        is_spelled(D3DFMT_G16R16F),
{
    reveal_with_fuel(spelled, 6);
    numbers_of_bits_are_written();
    reveal_strlit("G16R16F");
    reveal_strlit("1");
    reveal_strlit("6");
    reveal_strlit("F");
    reveal_strlit("");
    let f = fields(D3DFMT_G16R16F)->0;
    assert(spelled(f) + "F"@ =~= "G16R16F"@);
}

proof fn name_of_a16b16g16r16f()
    ensures
        is_spelled(D3DFMT_A16B16G16R16F),
{
    reveal_with_fuel(spelled, 6);
    numbers_of_bits_are_written();
    reveal_strlit("A16B16G16R16F");
    reveal_strlit("1");
    reveal_strlit("6");
    reveal_strlit("F");
    reveal_strlit("");
    let f = fields(D3DFMT_A16B16G16R16F)->0;
    assert(spelled(f) + "F"@ =~= "A16B16G16R16F"@);
}

proof fn name_of_r32f()
    ensures
        is_spelled(D3DFMT_R32F),
{
    reveal_with_fuel(spelled, 6);
    numbers_of_bits_are_written();
    reveal_strlit("R32F");
    reveal_strlit("2");
    reveal_strlit("3");
    reveal_strlit("F");
    reveal_strlit("");
    let f = fields(D3DFMT_R32F)->0;
    assert(spelled(f) + "F"@ =~= "R32F"@);
}

proof fn name_of_g32r32f()
    ensures
        is_spelled(D3DFMT_G32R32F),
{
    reveal_with_fuel(spelled, 6);
    numbers_of_bits_are_written();
    reveal_strlit("G32R32F");
    reveal_strlit("2");
    reveal_strlit("3");
    reveal_strlit("F");
    reveal_strlit("");
    let f = fields(D3DFMT_G32R32F)->0;
    assert(spelled(f) + "F"@ =~= "G32R32F"@);
}

proof fn name_of_a32b32g32r32f()
    ensures
        is_spelled(D3DFMT_A32B32G32R32F),
{
    reveal_with_fuel(spelled, 6);
    numbers_of_bits_are_written();
    reveal_strlit("A32B32G32R32F");
    reveal_strlit("2");
    reveal_strlit("3");
    reveal_strlit("F");
    reveal_strlit("");
    let f = fields(D3DFMT_A32B32G32R32F)->0;
    assert(spelled(f) + "F"@ =~= "A32B32G32R32F"@);
}

/// The name of a format spells its fields.
pub proof fn names_spell_the_fields(d3d_format: u32)
    requires
        fields(d3d_format) is Some,
    ensures
        is_spelled(d3d_format),
{
    name_of_a8r8g8b8();
    name_of_x8r8g8b8();
    name_of_a8b8g8r8();
    name_of_x8b8g8r8();
    name_of_r8g8b8();
    name_of_a8();
    name_of_l8();
    name_of_a8l8();
    name_of_r5g6b5();
    name_of_a1r5g5b5();
    name_of_x1r5g5b5();
    name_of_a4r4g4b4();
    name_of_v8u8();
    name_of_l16();
    name_of_g16r16();
    name_of_a16b16g16r16();
    name_of_r16f();
    name_of_g16r16f();
    name_of_a16b16g16r16f();
    name_of_r32f();
    name_of_g32r32f();
    name_of_a32b32g32r32f();
}

proof fn characters_of_ati1()
    ensures
        name_of(D3DFMT_ATI1).len() == 4,
        four_characters(name_of(D3DFMT_ATI1)) == D3DFMT_ATI1,
{
    reveal_strlit("ATI1");
}

proof fn characters_of_dxt1()
    ensures
        name_of(D3DFMT_DXT1).len() == 4,
        four_characters(name_of(D3DFMT_DXT1)) == D3DFMT_DXT1,
{
    reveal_strlit("DXT1");
}

proof fn characters_of_dxt2()
    ensures
        name_of(D3DFMT_DXT2).len() == 4,
        four_characters(name_of(D3DFMT_DXT2)) == D3DFMT_DXT2,
{
    reveal_strlit("DXT2");
}

proof fn characters_of_dxt3()
    ensures
        name_of(D3DFMT_DXT3).len() == 4,
        four_characters(name_of(D3DFMT_DXT3)) == D3DFMT_DXT3,
{
    reveal_strlit("DXT3");
}

proof fn characters_of_dxt4()
    ensures
        name_of(D3DFMT_DXT4).len() == 4,
        four_characters(name_of(D3DFMT_DXT4)) == D3DFMT_DXT4,
{
    reveal_strlit("DXT4");
}

proof fn characters_of_dxt5()
    ensures
        name_of(D3DFMT_DXT5).len() == 4,
        four_characters(name_of(D3DFMT_DXT5)) == D3DFMT_DXT5,
{
    reveal_strlit("DXT5");
}

proof fn characters_of_yuy2()
    ensures
        name_of(D3DFMT_YUY2).len() == 4,
        four_characters(name_of(D3DFMT_YUY2)) == D3DFMT_YUY2,
{
    reveal_strlit("YUY2");
}

proof fn characters_of_uyvy()
    ensures
        name_of(D3DFMT_UYVY).len() == 4,
        four_characters(name_of(D3DFMT_UYVY)) == D3DFMT_UYVY,
{
    reveal_strlit("UYVY");
}

proof fn characters_of_intz()
    ensures
        name_of(D3DFMT_INTZ).len() == 4,
        four_characters(name_of(D3DFMT_INTZ)) == D3DFMT_INTZ,
{
    reveal_strlit("INTZ");
}

proof fn characters_of_df24()
    ensures
        name_of(D3DFMT_DF24).len() == 4,
        four_characters(name_of(D3DFMT_DF24)) == D3DFMT_DF24,
{
    reveal_strlit("DF24");
}

proof fn characters_of_df16()
    ensures
        name_of(D3DFMT_DF16).len() == 4,
        four_characters(name_of(D3DFMT_DF16)) == D3DFMT_DF16,
{
    reveal_strlit("DF16");
}

/// A format whose number is made of four characters has these for its name.
pub proof fn names_are_the_four_characters(d3d_format: u32)
    requires
        d3d_format >= 0x100,
        color_layout(d3d_format) is Some || depth_layout(d3d_format) is Some,
    ensures
        name_of(d3d_format).len() == 4,
        four_characters(name_of(d3d_format)) == d3d_format,
{
    characters_of_ati1();
    characters_of_dxt1();
    characters_of_dxt2();
    characters_of_dxt3();
    characters_of_dxt4();
    characters_of_dxt5();
    characters_of_yuy2();
    characters_of_uyvy();
    characters_of_intz();
    characters_of_df24();
    characters_of_df16();
}

} // verus!
