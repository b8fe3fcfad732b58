//! The Metal counterparts of Direct3D 9 surface formats, and the sizes of
//! surfaces and mip levels that follow from them.

use crate::d3d::{
    D3DFMT_A16B16G16R16, D3DFMT_A16B16G16R16F, D3DFMT_A1R5G5B5, D3DFMT_A32B32G32R32F,
    D3DFMT_A4R4G4B4, D3DFMT_A8, D3DFMT_A8B8G8R8, D3DFMT_A8L8, D3DFMT_A8R8G8B8, D3DFMT_ATI1,
    D3DFMT_D15S1, D3DFMT_D16, D3DFMT_D16_LOCKABLE, D3DFMT_D24FS8, D3DFMT_D24S8, D3DFMT_D24X4S4,
    D3DFMT_D24X8, D3DFMT_D32, D3DFMT_D32F_LOCKABLE, D3DFMT_DF16, D3DFMT_DF24, D3DFMT_DXT1,
    D3DFMT_DXT2, D3DFMT_DXT3, D3DFMT_DXT4, D3DFMT_DXT5, D3DFMT_G16R16, D3DFMT_G16R16F,
    D3DFMT_G32R32F, D3DFMT_INTZ, D3DFMT_L16, D3DFMT_L8, D3DFMT_R16F, D3DFMT_R32F, D3DFMT_R5G6B5,
    D3DFMT_R8G8B8, D3DFMT_UYVY, D3DFMT_V8U8, D3DFMT_X1R5G5B5, D3DFMT_X8B8G8R8, D3DFMT_X8R8G8B8,
    D3DFMT_YUY2, D3DRTYPE_CUBETEXTURE, D3DRTYPE_INDEXBUFFER, D3DRTYPE_SURFACE, D3DRTYPE_TEXTURE,
    D3DRTYPE_VERTEXBUFFER, D3DRTYPE_VOLUME, D3DRTYPE_VOLUMETEXTURE, D3DUSAGE_AUTOGENMIPMAP,
    D3DUSAGE_DEPTHSTENCIL, D3DUSAGE_DMAP, D3DUSAGE_DONOTCLIP, D3DUSAGE_DYNAMIC,
    D3DUSAGE_NPATCHES, D3DUSAGE_POINTS, D3DUSAGE_QUERY_FILTER, D3DUSAGE_QUERY_LEGACYBUMPMAP,
    D3DUSAGE_QUERY_POSTPIXELSHADER_BLENDING, D3DUSAGE_QUERY_SRGBREAD, D3DUSAGE_QUERY_SRGBWRITE,
    D3DUSAGE_QUERY_VERTEXTEXTURE, D3DUSAGE_QUERY_WRAPANDMIP, D3DUSAGE_RENDERTARGET,
    D3DUSAGE_RTPATCHES, D3DUSAGE_SOFTWAREPROCESSING,
};
use crate::metal::{PixelFormat, Swizzle};
use vstd::prelude::*;

verus! {

/// The usage bits that a query is weighed on.
///
/// `WRITEONLY` and `NONSECURE` are outside: they are no questions about what a
/// format can do.
pub const VALIDATED_USAGE: u32 = D3DUSAGE_RENDERTARGET | D3DUSAGE_DEPTHSTENCIL
    | D3DUSAGE_SOFTWAREPROCESSING | D3DUSAGE_DONOTCLIP | D3DUSAGE_POINTS | D3DUSAGE_RTPATCHES
    | D3DUSAGE_NPATCHES | D3DUSAGE_DYNAMIC | D3DUSAGE_AUTOGENMIPMAP | D3DUSAGE_DMAP
    | D3DUSAGE_QUERY_LEGACYBUMPMAP | D3DUSAGE_QUERY_SRGBREAD | D3DUSAGE_QUERY_FILTER
    | D3DUSAGE_QUERY_SRGBWRITE | D3DUSAGE_QUERY_POSTPIXELSHADER_BLENDING
    | D3DUSAGE_QUERY_VERTEXTEXTURE | D3DUSAGE_QUERY_WRAPANDMIP;

/// The usage bits that presume a resource which shaders can sample.
pub const SAMPLED_USAGE: u32 = D3DUSAGE_DYNAMIC | D3DUSAGE_SOFTWAREPROCESSING
    | D3DUSAGE_QUERY_FILTER | D3DUSAGE_QUERY_SRGBREAD | D3DUSAGE_QUERY_SRGBWRITE
    | D3DUSAGE_QUERY_VERTEXTEXTURE | D3DUSAGE_QUERY_WRAPANDMIP;

/// What a colour format maps to: the view of a [`FormatMapping`].
pub struct Layout {
    pub metal_pixel_format: PixelFormat,
    pub bytes_per_pixel: u32,
    pub block_width: u32,
    pub block_height: u32,
    pub block_bytes: u32,
    pub swizzle: Option<[Swizzle; 4]>,
    pub has_alpha: bool,
}

impl Layout {
    /// A format of single pixels, `bytes` each.
    pub open spec fn linear(
        metal_pixel_format: PixelFormat,
        bytes: u32,
        swizzle: Option<[Swizzle; 4]>,
        has_alpha: bool,
    ) -> Layout {
        Layout {
            metal_pixel_format,
            bytes_per_pixel: bytes,
            block_width: 1,
            block_height: 1,
            block_bytes: bytes,
            swizzle,
            has_alpha,
        }
    }

    /// A format of compressed blocks of four by four pixels, `bytes` each.
    pub open spec fn blocks(
        metal_pixel_format: PixelFormat,
        bytes: u32,
        swizzle: Option<[Swizzle; 4]>,
        has_alpha: bool,
    ) -> Layout {
        Layout {
            metal_pixel_format,
            bytes_per_pixel: 0,
            block_width: 4,
            block_height: 4,
            block_bytes: bytes,
            swizzle,
            has_alpha,
        }
    }

    /// Whether the format stores blocks of pixels.
    pub open spec fn compressed(self) -> bool {
        self.block_width > 1
    }
}

/// The layout of a colour format, where it has one.
pub open spec fn color_layout(d3d_format: u32) -> Option<Layout> {
    match d3d_format {
        D3DFMT_A8R8G8B8 => Some(Layout::linear(PixelFormat::Bgra8Unorm, 4, None, true)),
        // The X byte is undefined, and samples as an opaque alpha.
        D3DFMT_X8R8G8B8 => Some(
            Layout::linear(
                PixelFormat::Bgra8Unorm,
                4,
                Some([Swizzle::Red, Swizzle::Green, Swizzle::Blue, Swizzle::One]),
                false,
            ),
        ),
        D3DFMT_A8B8G8R8 => Some(Layout::linear(PixelFormat::Rgba8Unorm, 4, None, true)),
        D3DFMT_X8B8G8R8 => Some(
            Layout::linear(
                PixelFormat::Rgba8Unorm,
                4,
                Some([Swizzle::Red, Swizzle::Green, Swizzle::Blue, Swizzle::One]),
                false,
            ),
        ),
        // Three bytes at the source, widened to four when uploaded.
        D3DFMT_R8G8B8 => Some(Layout::linear(PixelFormat::Bgra8Unorm, 3, None, false)),
        D3DFMT_A8 => Some(Layout::linear(PixelFormat::A8Unorm, 1, None, true)),
        D3DFMT_L8 => Some(
            Layout::linear(
                PixelFormat::R8Unorm,
                1,
                Some([Swizzle::Red, Swizzle::Red, Swizzle::Red, Swizzle::One]),
                false,
            ),
        ),
        D3DFMT_A8L8 => Some(
            Layout::linear(
                PixelFormat::Rg8Unorm,
                2,
                Some([Swizzle::Red, Swizzle::Red, Swizzle::Red, Swizzle::Green]),
                true,
            ),
        ),
        D3DFMT_R5G6B5 => Some(Layout::linear(PixelFormat::B5G6R5Unorm, 2, None, false)),
        D3DFMT_A1R5G5B5 => Some(Layout::linear(PixelFormat::Bgr5A1Unorm, 2, None, true)),
        D3DFMT_X1R5G5B5 => Some(
            Layout::linear(
                PixelFormat::Bgr5A1Unorm,
                2,
                Some([Swizzle::Red, Swizzle::Green, Swizzle::Blue, Swizzle::One]),
                false,
            ),
        ),
        // Metal stores the channels in another order; the swizzle undoes it.
        D3DFMT_A4R4G4B4 => Some(
            Layout::linear(
                PixelFormat::Abgr4Unorm,
                2,
                Some([Swizzle::Green, Swizzle::Blue, Swizzle::Alpha, Swizzle::Red]),
                true,
            ),
        ),
        // A channel that is not stored samples as one.
        D3DFMT_V8U8 => Some(
            Layout::linear(
                PixelFormat::Rg8Snorm,
                2,
                Some([Swizzle::Red, Swizzle::Green, Swizzle::One, Swizzle::One]),
                false,
            ),
        ),
        D3DFMT_DXT1 => Some(Layout::blocks(PixelFormat::Bc1Rgba, 8, None, false)),
        D3DFMT_DXT2 | D3DFMT_DXT3 => Some(Layout::blocks(PixelFormat::Bc2Rgba, 16, None, true)),
        D3DFMT_DXT4 | D3DFMT_DXT5 => Some(Layout::blocks(PixelFormat::Bc3Rgba, 16, None, true)),
        // Lockable only: the packed YUV pairs are never converted.
        D3DFMT_YUY2 | D3DFMT_UYVY => Some(Layout::linear(PixelFormat::Rg8Unorm, 2, None, false)),
        D3DFMT_L16 => Some(
            Layout::linear(
                PixelFormat::R16Unorm,
                2,
                Some([Swizzle::Red, Swizzle::Red, Swizzle::Red, Swizzle::One]),
                false,
            ),
        ),
        D3DFMT_G16R16 => Some(
            Layout::linear(
                PixelFormat::Rg16Unorm,
                4,
                Some([Swizzle::Red, Swizzle::Green, Swizzle::One, Swizzle::One]),
                false,
            ),
        ),
        D3DFMT_A16B16G16R16 => Some(Layout::linear(PixelFormat::Rgba16Unorm, 8, None, true)),
        D3DFMT_R16F => Some(
            Layout::linear(
                PixelFormat::R16Float,
                2,
                Some([Swizzle::Red, Swizzle::One, Swizzle::One, Swizzle::One]),
                false,
            ),
        ),
        D3DFMT_G16R16F => Some(
            Layout::linear(
                PixelFormat::Rg16Float,
                4,
                Some([Swizzle::Red, Swizzle::Green, Swizzle::One, Swizzle::One]),
                false,
            ),
        ),
        D3DFMT_A16B16G16R16F => Some(Layout::linear(PixelFormat::Rgba16Float, 8, None, true)),
        D3DFMT_R32F => Some(
            Layout::linear(
                PixelFormat::R32Float,
                4,
                Some([Swizzle::Red, Swizzle::One, Swizzle::One, Swizzle::One]),
                false,
            ),
        ),
        D3DFMT_G32R32F => Some(
            Layout::linear(
                PixelFormat::Rg32Float,
                8,
                Some([Swizzle::Red, Swizzle::Green, Swizzle::One, Swizzle::One]),
                false,
            ),
        ),
        D3DFMT_A32B32G32R32F => Some(Layout::linear(PixelFormat::Rgba32Float, 16, None, true)),
        D3DFMT_ATI1 => Some(
            Layout::blocks(
                PixelFormat::Bc4RUnorm,
                8,
                Some([Swizzle::Red, Swizzle::Red, Swizzle::Red, Swizzle::One]),
                false,
            ),
        ),
        _ => None,
    }
}

/// The layout of a colour format on a device that has, or lacks, the packed
/// 16-bit formats.
///
/// Where they are missing, the upload widens those formats to `Bgra8Unorm`,
/// and the layout of the source stays what it is.
pub open spec fn device_layout(d3d_format: u32, native_packed16: bool) -> Option<Layout> {
    if native_packed16 {
        color_layout(d3d_format)
    } else {
        match d3d_format {
            D3DFMT_R5G6B5 | D3DFMT_X1R5G5B5 => Some(
                Layout::linear(PixelFormat::Bgra8Unorm, 2, None, false),
            ),
            D3DFMT_A1R5G5B5 | D3DFMT_A4R4G4B4 => Some(
                Layout::linear(PixelFormat::Bgra8Unorm, 2, None, true),
            ),
            _ => color_layout(d3d_format),
        }
    }
}

/// The Metal format of a depth format.
pub open spec fn depth_layout(d3d_format: u32) -> Option<PixelFormat> {
    match d3d_format {
        D3DFMT_D16_LOCKABLE | D3DFMT_D32 | D3DFMT_D24X8 | D3DFMT_D16 | D3DFMT_D32F_LOCKABLE
        | D3DFMT_DF24 | D3DFMT_DF16 => Some(PixelFormat::Depth32Float),
        D3DFMT_D15S1 | D3DFMT_D24S8 | D3DFMT_D24X4S4 | D3DFMT_D24FS8 | D3DFMT_INTZ => Some(
            PixelFormat::Depth32FloatStencil8,
        ),
        _ => None,
    }
}

/// The bytes of a pixel of a depth format, as the application counts them.
pub open spec fn depth_bytes(d3d_format: u32) -> Option<u32> {
    match d3d_format {
        D3DFMT_D16 | D3DFMT_D16_LOCKABLE | D3DFMT_D15S1 | D3DFMT_DF16 => Some(2),
        D3DFMT_D32 | D3DFMT_D32F_LOCKABLE | D3DFMT_D24X8 | D3DFMT_D24S8 | D3DFMT_D24X4S4
        | D3DFMT_D24FS8 | D3DFMT_DF24 | D3DFMT_INTZ => Some(4),
        _ => None,
    }
}

/// The name of a format that has a colour or a depth mapping.
pub open spec fn name_of(d3d_format: u32) -> Seq<char> {
    match d3d_format {
        D3DFMT_A8R8G8B8 => "A8R8G8B8"@,
        D3DFMT_X8R8G8B8 => "X8R8G8B8"@,
        D3DFMT_A8B8G8R8 => "A8B8G8R8"@,
        D3DFMT_X8B8G8R8 => "X8B8G8R8"@,
        D3DFMT_R8G8B8 => "R8G8B8"@,
        D3DFMT_R5G6B5 => "R5G6B5"@,
        D3DFMT_A1R5G5B5 => "A1R5G5B5"@,
        D3DFMT_X1R5G5B5 => "X1R5G5B5"@,
        D3DFMT_A4R4G4B4 => "A4R4G4B4"@,
        D3DFMT_A8 => "A8"@,
        D3DFMT_A8L8 => "A8L8"@,
        D3DFMT_L8 => "L8"@,
        D3DFMT_L16 => "L16"@,
        D3DFMT_G16R16 => "G16R16"@,
        D3DFMT_A16B16G16R16 => "A16B16G16R16"@,
        D3DFMT_R16F => "R16F"@,
        D3DFMT_G16R16F => "G16R16F"@,
        D3DFMT_A16B16G16R16F => "A16B16G16R16F"@,
        D3DFMT_R32F => "R32F"@,
        D3DFMT_G32R32F => "G32R32F"@,
        D3DFMT_A32B32G32R32F => "A32B32G32R32F"@,
        D3DFMT_ATI1 => "ATI1"@,
        D3DFMT_V8U8 => "V8U8"@,
        D3DFMT_DXT1 => "DXT1"@,
        D3DFMT_DXT2 => "DXT2"@,
        D3DFMT_DXT3 => "DXT3"@,
        D3DFMT_DXT4 => "DXT4"@,
        D3DFMT_DXT5 => "DXT5"@,
        D3DFMT_YUY2 => "YUY2"@,
        D3DFMT_UYVY => "UYVY"@,
        D3DFMT_D16_LOCKABLE => "D16_LOCKABLE"@,
        D3DFMT_D32 => "D32"@,
        D3DFMT_D15S1 => "D15S1"@,
        D3DFMT_D24S8 => "D24S8"@,
        D3DFMT_D24X8 => "D24X8"@,
        D3DFMT_D24X4S4 => "D24X4S4"@,
        D3DFMT_D16 => "D16"@,
        D3DFMT_D32F_LOCKABLE => "D32F_LOCKABLE"@,
        D3DFMT_D24FS8 => "D24FS8"@,
        D3DFMT_INTZ => "INTZ"@,
        D3DFMT_DF24 => "DF24"@,
        D3DFMT_DF16 => "DF16"@,
        _ => "D3DFMT_unknown"@,
    }
}

/// The usage bits that a query on a resource type may carry.
pub open spec fn allowed_usage(usage: u32, rtype: u32) -> u32 {
    match rtype {
        D3DRTYPE_SURFACE => if usage & D3DUSAGE_RENDERTARGET == 0 {
            D3DUSAGE_RENDERTARGET | D3DUSAGE_DEPTHSTENCIL | D3DUSAGE_QUERY_POSTPIXELSHADER_BLENDING
        } else {
            D3DUSAGE_RENDERTARGET | D3DUSAGE_DEPTHSTENCIL | D3DUSAGE_QUERY_POSTPIXELSHADER_BLENDING
                | D3DUSAGE_QUERY_SRGBWRITE
        },
        D3DRTYPE_TEXTURE => D3DUSAGE_RENDERTARGET | D3DUSAGE_DEPTHSTENCIL | D3DUSAGE_AUTOGENMIPMAP
            | D3DUSAGE_QUERY_LEGACYBUMPMAP | D3DUSAGE_QUERY_POSTPIXELSHADER_BLENDING
            | SAMPLED_USAGE,
        D3DRTYPE_CUBETEXTURE => D3DUSAGE_RENDERTARGET | D3DUSAGE_AUTOGENMIPMAP
            | D3DUSAGE_QUERY_POSTPIXELSHADER_BLENDING | SAMPLED_USAGE,
        D3DRTYPE_VOLUME | D3DRTYPE_VOLUMETEXTURE => D3DUSAGE_QUERY_POSTPIXELSHADER_BLENDING
            | SAMPLED_USAGE,
        D3DRTYPE_VERTEXBUFFER | D3DRTYPE_INDEXBUFFER => D3DUSAGE_DYNAMIC,
        _ => 0,
    }
}

/// `n / d` rounded up.
pub open spec fn ceil_div(n: int, d: int) -> int {
    (n + d - 1) / d
}

/// `n`, or the largest `u32` where `n` is larger.
pub open spec fn saturated(n: int) -> int {
    if n <= u32::MAX {
        n
    } else {
        u32::MAX as int
    }
}

/// The bytes of a row of pixels, rounded up to a multiple of four.
pub open spec fn row_pitch(width: int, bytes_per_pixel: int) -> int {
    ceil_div(width * bytes_per_pixel, 4) * 4
}

/// Whether the pitch of such a row is a `u32`.
pub open spec fn row_fits(width: int, bytes_per_pixel: int) -> bool {
    row_pitch(width, bytes_per_pixel) <= u32::MAX
}

/// The extent of a mip level along one axis.
pub open spec fn mip_extent(base: u32, level: u32) -> u32 {
    if base >> level == 0 {
        1
    } else {
        base >> level
    }
}

/// Width, height, byte size and row pitch of a level of single pixels.
pub open spec fn linear_level(width: u32, height: u32, bytes_per_pixel: u32) -> (
    int,
    int,
    int,
    int,
) {
    let pitch = row_pitch(width as int, bytes_per_pixel as int);
    (width as int, height as int, saturated(pitch * height), pitch)
}

/// Width, height, byte size and row pitch of a level of blocks.
pub open spec fn block_level(width: u32, height: u32, layout: Layout) -> (int, int, int, int) {
    let pitch = ceil_div(width as int, layout.block_width as int) * layout.block_bytes;
    (
        width as int,
        height as int,
        pitch * ceil_div(height as int, layout.block_height as int),
        pitch,
    )
}

/// Width, height, byte size and row pitch of a level of either kind.
pub open spec fn level_size(width: u32, height: u32, layout: Layout) -> (int, int, int, int) {
    if layout.compressed() {
        block_level(width, height, layout)
    } else {
        linear_level(width, height, layout.bytes_per_pixel)
    }
}

/// Whether the sizes of a level are `u32` values.
pub open spec fn level_fits(width: u32, height: u32, layout: Layout) -> bool {
    if layout.compressed() {
        block_level(width, height, layout).2 <= u32::MAX
    } else {
        row_fits(width as int, layout.bytes_per_pixel as int)
    }
}

/// The larger of two numbers.
pub open spec fn larger(a: u32, b: u32) -> u32 {
    if a < b {
        b
    } else {
        a
    }
}

/// `count` levels halve an extent down to a single texel: the last level is the
/// first with an extent of one.
pub open spec fn is_full_chain(extent: u32, count: u32) -> bool {
    if extent == 0 {
        count == 1
    } else {
        &&& 1 <= count <= 32
        &&& extent >> ((count - 1) as u32) == 1
    }
}

/// The bytes of one surface, or zero for a format without a mapping.
pub open spec fn surface_size(width: u32, height: u32, d3d_format: u32) -> int {
    match (color_layout(d3d_format), depth_bytes(d3d_format)) {
        (Some(layout), _) => level_size(mip_extent(width, 0), mip_extent(height, 0), layout).2,
        (None, Some(bytes)) => linear_level(mip_extent(width, 0), mip_extent(height, 0), bytes).2,
        (None, None) => 0,
    }
}

/// Whether the sizes behind [`surface_size`] are `u32` values.
pub open spec fn surface_fits(width: u32, height: u32, d3d_format: u32) -> bool {
    match (color_layout(d3d_format), depth_bytes(d3d_format)) {
        (Some(layout), _) => level_fits(mip_extent(width, 0), mip_extent(height, 0), layout),
        (None, Some(bytes)) => row_fits(mip_extent(width, 0) as int, bytes as int),
        (None, None) => true,
    }
}

/// How many times the size of the single-sample surface a standalone surface
/// occupies.
pub open spec fn surface_copies(kind: StandaloneSurfaceKind, sample_count: u32) -> int {
    match kind {
        StandaloneSurfaceKind::ColorTarget => if sample_count > 1 {
            sample_count + 1
        } else {
            1
        },
        StandaloneSurfaceKind::DepthStencil => larger(sample_count, 1) as int,
    }
}

/// What a colour format maps to.
pub struct FormatMapping {
    metal_pixel_format: PixelFormat,
    bytes_per_pixel: u32,
    block_width: u32,
    block_height: u32,
    block_bytes: u32,
    swizzle: Option<[Swizzle; 4]>,
    has_alpha: bool,
}

impl View for FormatMapping {
    type V = Layout;

    closed spec fn view(&self) -> Layout {
        Layout {
            metal_pixel_format: self.metal_pixel_format,
            bytes_per_pixel: self.bytes_per_pixel,
            block_width: self.block_width,
            block_height: self.block_height,
            block_bytes: self.block_bytes,
            swizzle: self.swizzle,
            has_alpha: self.has_alpha,
        }
    }
}

impl FormatMapping {
    /// Blocks have an extent.
    #[verifier::type_invariant]
    spec fn has_extent(self) -> bool {
        self.block_width > 0 && self.block_height > 0
    }

    fn linear(
        metal_pixel_format: PixelFormat,
        bytes: u32,
        swizzle: Option<[Swizzle; 4]>,
        has_alpha: bool,
    ) -> (r: FormatMapping)
        ensures
            r@ == Layout::linear(metal_pixel_format, bytes, swizzle, has_alpha),
    {
        FormatMapping {
            metal_pixel_format,
            bytes_per_pixel: bytes,
            block_width: 1,
            block_height: 1,
            block_bytes: bytes,
            swizzle,
            has_alpha,
        }
    }

    fn blocks(
        metal_pixel_format: PixelFormat,
        bytes: u32,
        swizzle: Option<[Swizzle; 4]>,
        has_alpha: bool,
    ) -> (r: FormatMapping)
        ensures
            r@ == Layout::blocks(metal_pixel_format, bytes, swizzle, has_alpha),
    {
        FormatMapping {
            metal_pixel_format,
            bytes_per_pixel: 0,
            block_width: 4,
            block_height: 4,
            block_bytes: bytes,
            swizzle,
            has_alpha,
        }
    }

    /// Whether the format stores blocks of pixels.
    pub fn is_compressed(&self) -> (r: bool)
        ensures
            r == self@.compressed(),
    {
        self.block_width > 1
    }

    /// The Metal pixel format.
    pub fn metal_pixel_format(&self) -> (r: PixelFormat)
        ensures
            r == self@.metal_pixel_format,
    {
        self.metal_pixel_format
    }

    /// The swizzle that a sample goes through.
    pub fn swizzle(&self) -> (r: Option<[Swizzle; 4]>)
        ensures
            r == self@.swizzle,
    {
        self.swizzle
    }

    /// Whether the format stores an alpha channel.
    ///
    /// Two formats with one Metal counterpart may differ here. Blending against
    /// a target without alpha takes the destination alpha as one.
    pub fn has_alpha(&self) -> (r: bool)
        ensures
            r == self@.has_alpha,
    {
        self.has_alpha
    }

    /// The bytes of a pixel at the source; zero for a compressed format.
    pub fn bytes_per_pixel(&self) -> (r: u32)
        ensures
            r == self@.bytes_per_pixel,
    {
        self.bytes_per_pixel
    }

    /// The width of a block, in pixels.
    pub fn block_width(&self) -> (r: u32)
        ensures
            r == self@.block_width,
    {
        self.block_width
    }

    /// The height of a block, in pixels.
    pub fn block_height(&self) -> (r: u32)
        ensures
            r == self@.block_height,
    {
        self.block_height
    }

    /// The bytes of a block.
    pub fn block_bytes(&self) -> (r: u32)
        ensures
            r == self@.block_bytes,
    {
        self.block_bytes
    }
}

/// The view of an optional mapping.
pub open spec fn optional_layout(mapping: Option<FormatMapping>) -> Option<Layout> {
    match mapping {
        Some(m) => Some(m@),
        None => None,
    }
}

/// The name of a format, or `D3DFMT_unknown` for one without a mapping.
pub fn format_name(d3d_format: u32) -> (r: &'static str)
    ensures
        r@ == name_of(d3d_format),
{
    match d3d_format {
        D3DFMT_A8R8G8B8 => "A8R8G8B8",
        D3DFMT_X8R8G8B8 => "X8R8G8B8",
        D3DFMT_A8B8G8R8 => "A8B8G8R8",
        D3DFMT_X8B8G8R8 => "X8B8G8R8",
        D3DFMT_R8G8B8 => "R8G8B8",
        D3DFMT_R5G6B5 => "R5G6B5",
        D3DFMT_A1R5G5B5 => "A1R5G5B5",
        D3DFMT_X1R5G5B5 => "X1R5G5B5",
        D3DFMT_A4R4G4B4 => "A4R4G4B4",
        D3DFMT_A8 => "A8",
        D3DFMT_A8L8 => "A8L8",
        D3DFMT_L8 => "L8",
        D3DFMT_L16 => "L16",
        D3DFMT_G16R16 => "G16R16",
        D3DFMT_A16B16G16R16 => "A16B16G16R16",
        D3DFMT_R16F => "R16F",
        D3DFMT_G16R16F => "G16R16F",
        D3DFMT_A16B16G16R16F => "A16B16G16R16F",
        D3DFMT_R32F => "R32F",
        D3DFMT_G32R32F => "G32R32F",
        D3DFMT_A32B32G32R32F => "A32B32G32R32F",
        D3DFMT_ATI1 => "ATI1",
        D3DFMT_V8U8 => "V8U8",
        D3DFMT_DXT1 => "DXT1",
        D3DFMT_DXT2 => "DXT2",
        D3DFMT_DXT3 => "DXT3",
        D3DFMT_DXT4 => "DXT4",
        D3DFMT_DXT5 => "DXT5",
        D3DFMT_YUY2 => "YUY2",
        D3DFMT_UYVY => "UYVY",
        D3DFMT_D16_LOCKABLE => "D16_LOCKABLE",
        D3DFMT_D32 => "D32",
        D3DFMT_D15S1 => "D15S1",
        D3DFMT_D24S8 => "D24S8",
        D3DFMT_D24X8 => "D24X8",
        D3DFMT_D24X4S4 => "D24X4S4",
        D3DFMT_D16 => "D16",
        D3DFMT_D32F_LOCKABLE => "D32F_LOCKABLE",
        D3DFMT_D24FS8 => "D24FS8",
        D3DFMT_INTZ => "INTZ",
        D3DFMT_DF24 => "DF24",
        D3DFMT_DF16 => "DF16",
        _ => "D3DFMT_unknown",
    }
}

/// The Metal format of a depth format.
///
/// There is no native 24-bit depth, so that family is promoted. Formats with a
/// stencil plane keep one; `INTZ` has one, `DF24` and `DF16` do not.
pub fn map_d3d_depth_format(d3d_format: u32) -> (r: Option<PixelFormat>)
    ensures
        r == depth_layout(d3d_format),
{
    match d3d_format {
        D3DFMT_D16_LOCKABLE | D3DFMT_D32 | D3DFMT_D24X8 | D3DFMT_D16 | D3DFMT_D32F_LOCKABLE
        | D3DFMT_DF24 | D3DFMT_DF16 => Some(PixelFormat::Depth32Float),
        D3DFMT_D15S1 | D3DFMT_D24S8 | D3DFMT_D24X4S4 | D3DFMT_D24FS8 | D3DFMT_INTZ => Some(
            PixelFormat::Depth32FloatStencil8,
        ),
        _ => None,
    }
}

/// Whether a format is a depth format.
pub fn is_depth_format(d3d_format: u32) -> (r: bool)
    ensures
        r == (depth_layout(d3d_format) is Some),
{
    map_d3d_depth_format(d3d_format).is_some()
}

/// Whether a depth format is sampled as raw depth, without a comparison.
pub fn is_raw_depth_fetch_format(d3d_format: u32) -> (r: bool)
    ensures
        r == (d3d_format == D3DFMT_INTZ || d3d_format == D3DFMT_DF24 || d3d_format == D3DFMT_DF16),
{
    matches!(d3d_format, D3DFMT_INTZ | D3DFMT_DF24 | D3DFMT_DF16)
}

/// Whether a format is one of the DXT family, whose extents must be whole
/// blocks. `ATI1` is not: it is not size-checked.
pub fn is_dxt_format(d3d_format: u32) -> (r: bool)
    ensures
        r == (d3d_format == D3DFMT_DXT1 || d3d_format == D3DFMT_DXT2 || d3d_format == D3DFMT_DXT3
            || d3d_format == D3DFMT_DXT4 || d3d_format == D3DFMT_DXT5),
{
    matches!(
        d3d_format,
        D3DFMT_DXT1 | D3DFMT_DXT2 | D3DFMT_DXT3 | D3DFMT_DXT4 | D3DFMT_DXT5
    )
}

fn lookup_d3d_format(d3d_format: u32) -> (r: Option<FormatMapping>)
    ensures
        optional_layout(r) == color_layout(d3d_format),
{
    match d3d_format {
        D3DFMT_A8R8G8B8 => Some(FormatMapping::linear(PixelFormat::Bgra8Unorm, 4, None, true)),
        D3DFMT_X8R8G8B8 => Some(
            FormatMapping::linear(
                PixelFormat::Bgra8Unorm,
                4,
                Some([Swizzle::Red, Swizzle::Green, Swizzle::Blue, Swizzle::One]),
                false,
            ),
        ),
        D3DFMT_A8B8G8R8 => Some(FormatMapping::linear(PixelFormat::Rgba8Unorm, 4, None, true)),
        D3DFMT_X8B8G8R8 => Some(
            FormatMapping::linear(
                PixelFormat::Rgba8Unorm,
                4,
                Some([Swizzle::Red, Swizzle::Green, Swizzle::Blue, Swizzle::One]),
                false,
            ),
        ),
        D3DFMT_R8G8B8 => Some(FormatMapping::linear(PixelFormat::Bgra8Unorm, 3, None, false)),
        D3DFMT_A8 => Some(FormatMapping::linear(PixelFormat::A8Unorm, 1, None, true)),
        D3DFMT_L8 => Some(
            FormatMapping::linear(
                PixelFormat::R8Unorm,
                1,
                Some([Swizzle::Red, Swizzle::Red, Swizzle::Red, Swizzle::One]),
                false,
            ),
        ),
        D3DFMT_A8L8 => Some(
            FormatMapping::linear(
                PixelFormat::Rg8Unorm,
                2,
                Some([Swizzle::Red, Swizzle::Red, Swizzle::Red, Swizzle::Green]),
                true,
            ),
        ),
        D3DFMT_R5G6B5 => Some(FormatMapping::linear(PixelFormat::B5G6R5Unorm, 2, None, false)),
        D3DFMT_A1R5G5B5 => Some(FormatMapping::linear(PixelFormat::Bgr5A1Unorm, 2, None, true)),
        D3DFMT_X1R5G5B5 => Some(
            FormatMapping::linear(
                PixelFormat::Bgr5A1Unorm,
                2,
                Some([Swizzle::Red, Swizzle::Green, Swizzle::Blue, Swizzle::One]),
                false,
            ),
        ),
        D3DFMT_A4R4G4B4 => Some(
            FormatMapping::linear(
                PixelFormat::Abgr4Unorm,
                2,
                Some([Swizzle::Green, Swizzle::Blue, Swizzle::Alpha, Swizzle::Red]),
                true,
            ),
        ),
        D3DFMT_V8U8 => Some(
            FormatMapping::linear(
                PixelFormat::Rg8Snorm,
                2,
                Some([Swizzle::Red, Swizzle::Green, Swizzle::One, Swizzle::One]),
                false,
            ),
        ),
        D3DFMT_DXT1 => Some(FormatMapping::blocks(PixelFormat::Bc1Rgba, 8, None, false)),
        D3DFMT_DXT2 | D3DFMT_DXT3 => Some(
            FormatMapping::blocks(
                PixelFormat::Bc2Rgba,
                16,
                None,
                true,
            ),
        ),
        D3DFMT_DXT4 | D3DFMT_DXT5 => Some(
            FormatMapping::blocks(
                PixelFormat::Bc3Rgba,
                16,
                None,
                true,
            ),
        ),
        D3DFMT_YUY2 | D3DFMT_UYVY => Some(
            FormatMapping::linear(
                PixelFormat::Rg8Unorm,
                2,
                None,
                false,
            ),
        ),
        D3DFMT_L16 => Some(
            FormatMapping::linear(
                PixelFormat::R16Unorm,
                2,
                Some([Swizzle::Red, Swizzle::Red, Swizzle::Red, Swizzle::One]),
                false,
            ),
        ),
        D3DFMT_G16R16 => Some(
            FormatMapping::linear(
                PixelFormat::Rg16Unorm,
                4,
                Some([Swizzle::Red, Swizzle::Green, Swizzle::One, Swizzle::One]),
                false,
            ),
        ),
        D3DFMT_A16B16G16R16 => Some(FormatMapping::linear(PixelFormat::Rgba16Unorm, 8, None, true)),
        D3DFMT_R16F => Some(
            FormatMapping::linear(
                PixelFormat::R16Float,
                2,
                Some([Swizzle::Red, Swizzle::One, Swizzle::One, Swizzle::One]),
                false,
            ),
        ),
        D3DFMT_G16R16F => Some(
            FormatMapping::linear(
                PixelFormat::Rg16Float,
                4,
                Some([Swizzle::Red, Swizzle::Green, Swizzle::One, Swizzle::One]),
                false,
            ),
        ),
        D3DFMT_A16B16G16R16F => Some(
            FormatMapping::linear(
                PixelFormat::Rgba16Float,
                8,
                None,
                true,
            ),
        ),
        D3DFMT_R32F => Some(
            FormatMapping::linear(
                PixelFormat::R32Float,
                4,
                Some([Swizzle::Red, Swizzle::One, Swizzle::One, Swizzle::One]),
                false,
            ),
        ),
        D3DFMT_G32R32F => Some(
            FormatMapping::linear(
                PixelFormat::Rg32Float,
                8,
                Some([Swizzle::Red, Swizzle::Green, Swizzle::One, Swizzle::One]),
                false,
            ),
        ),
        D3DFMT_A32B32G32R32F => Some(
            FormatMapping::linear(
                PixelFormat::Rgba32Float,
                16,
                None,
                true,
            ),
        ),
        D3DFMT_ATI1 => Some(
            FormatMapping::blocks(
                PixelFormat::Bc4RUnorm,
                8,
                Some([Swizzle::Red, Swizzle::Red, Swizzle::Red, Swizzle::One]),
                false,
            ),
        ),
        _ => None,
    }
}

/// The Metal counterpart of a colour format.
pub fn map_d3d_format(d3d_format: u32) -> (r: Option<FormatMapping>)
    ensures
        optional_layout(r) == color_layout(d3d_format),
{
    lookup_d3d_format(d3d_format)
}

/// Whether a colour format has a Metal counterpart, on any device.
pub fn is_mapped_color_format(d3d_format: u32) -> (r: bool)
    ensures
        r == (color_layout(d3d_format) is Some),
{
    lookup_d3d_format(d3d_format).is_some()
}

/// The Metal counterpart of a colour format on a device that has, or lacks, the
/// packed 16-bit formats.
pub fn map_d3d_format_device(d3d_format: u32, native_packed16: bool) -> (r: Option<FormatMapping>)
    ensures
        optional_layout(r) == device_layout(d3d_format, native_packed16),
{
    if !native_packed16 {
        // No swizzle: the textures that the expansion renders into cannot have
        // one, and it writes the channels in their own order.
        let expanded = match d3d_format {
            D3DFMT_R5G6B5 | D3DFMT_X1R5G5B5 => Some(
                FormatMapping::linear(PixelFormat::Bgra8Unorm, 2, None, false),
            ),
            D3DFMT_A1R5G5B5 | D3DFMT_A4R4G4B4 => Some(
                FormatMapping::linear(PixelFormat::Bgra8Unorm, 2, None, true),
            ),
            _ => None,
        };
        if expanded.is_some() {
            return expanded;
        }
    }
    map_d3d_format(d3d_format)
}

/// The part of a usage query that depends on the device: only the
/// single-precision formats are in doubt, and only for linear filtering.
pub fn supports_usage_query(d3d_format: u32, usage: u32, float32_filtering: bool) -> (r: bool)
    ensures
        r == (usage & D3DUSAGE_QUERY_FILTER == 0 || float32_filtering || !(d3d_format == D3DFMT_R32F
            || d3d_format == D3DFMT_G32R32F || d3d_format == D3DFMT_A32B32G32R32F)),
{
    if usage & D3DUSAGE_QUERY_FILTER == 0 {
        return true;
    }
    float32_filtering || !matches!(
        d3d_format,
        D3DFMT_R32F | D3DFMT_G32R32F | D3DFMT_A32B32G32R32F
    )
}

/// Whether a query on resources of type `rtype` may carry `usage`.
///
/// A bit that the type cannot express refuses the query, whatever the format.
/// Bits outside [`VALIDATED_USAGE`] do not matter, and an unknown type allows
/// none inside.
pub fn usage_allowed_for_rtype(usage: u32, rtype: u32) -> (r: bool)
    ensures
        r == (usage & VALIDATED_USAGE & !allowed_usage(usage, rtype) == 0),
{
    let allowed: u32 = match rtype {
        D3DRTYPE_SURFACE => {
            // The encode belongs to the render pass, so a surface has it only
            // as a target.
            if usage & D3DUSAGE_RENDERTARGET == 0 {
                D3DUSAGE_RENDERTARGET | D3DUSAGE_DEPTHSTENCIL
                    | D3DUSAGE_QUERY_POSTPIXELSHADER_BLENDING
            } else {
                D3DUSAGE_RENDERTARGET | D3DUSAGE_DEPTHSTENCIL
                    | D3DUSAGE_QUERY_POSTPIXELSHADER_BLENDING | D3DUSAGE_QUERY_SRGBWRITE
            }
        },
        D3DRTYPE_TEXTURE => D3DUSAGE_RENDERTARGET | D3DUSAGE_DEPTHSTENCIL | D3DUSAGE_AUTOGENMIPMAP
            | D3DUSAGE_QUERY_LEGACYBUMPMAP | D3DUSAGE_QUERY_POSTPIXELSHADER_BLENDING
            | SAMPLED_USAGE,
        D3DRTYPE_CUBETEXTURE => D3DUSAGE_RENDERTARGET | D3DUSAGE_AUTOGENMIPMAP
            | D3DUSAGE_QUERY_POSTPIXELSHADER_BLENDING | SAMPLED_USAGE,
        D3DRTYPE_VOLUME | D3DRTYPE_VOLUMETEXTURE => D3DUSAGE_QUERY_POSTPIXELSHADER_BLENDING
            | SAMPLED_USAGE,
        D3DRTYPE_VERTEXBUFFER | D3DRTYPE_INDEXBUFFER => D3DUSAGE_DYNAMIC,
        _ => 0,
    };
    (usage & VALIDATED_USAGE & !allowed) == 0
}

/// The row pitch of a linear surface that the CPU can see, in bytes.
///
/// One rounding for every such store: the pitch that a lock reports, that its
/// transfers run at, and that a device-independent bitmap has.
pub fn linear_row_pitch(width: u32, bytes_per_pixel: u32) -> (r: u32)
    requires
        row_fits(width as int, bytes_per_pixel as int),
    ensures
        r == row_pitch(width as int, bytes_per_pixel as int),
{
    assert(0 <= width * bytes_per_pixel <= u32::MAX) by {
        assert(width * bytes_per_pixel >= 0) by (nonlinear_arith);
    }
    let bytes: u32 = width * bytes_per_pixel;
    if bytes % 4 == 0 {
        bytes
    } else {
        bytes / 4 * 4 + 4
    }
}

/// Width, height, byte size and row pitch of one mip level.
pub fn compute_mip_size(base_width: u32, base_height: u32, level: u32, fmt: &FormatMapping) -> (r: (
    u32,
    u32,
    u32,
    u32,
))
    requires
        level < 32,
        level_fits(mip_extent(base_width, level), mip_extent(base_height, level), fmt@),
    ensures
        (r.0 as int, r.1 as int, r.2 as int, r.3 as int) == level_size(
            mip_extent(base_width, level),
            mip_extent(base_height, level),
            fmt@,
        ),
{
    let w: u32 = level_extent(base_width, level);
    let h: u32 = level_extent(base_height, level);
    if fmt.is_compressed() {
        proof {
            use_type_invariant(fmt);
        }
        let blocks_x: u32 = blocks_across(w, fmt.block_width);
        let blocks_y: u32 = blocks_across(h, fmt.block_height);
        assert(0 <= blocks_x * fmt.block_bytes <= u32::MAX) by (nonlinear_arith)
            requires
                blocks_y >= 1,
                blocks_x * fmt.block_bytes * blocks_y <= u32::MAX,
        ;
        let bytes_per_row: u32 = blocks_x * fmt.block_bytes;
        assert(bytes_per_row * blocks_y >= 0) by (nonlinear_arith);
        let byte_size: u32 = bytes_per_row * blocks_y;
        (w, h, byte_size, bytes_per_row)
    } else {
        linear_mip_size(base_width, base_height, level, fmt.bytes_per_pixel)
    }
}

fn level_extent(base: u32, level: u32) -> (r: u32)
    requires
        level < 32,
    ensures
        r == mip_extent(base, level),
        r >= 1,
{
    let shifted: u32 = base >> level;
    if shifted == 0 {
        1
    } else {
        shifted
    }
}

fn blocks_across(extent: u32, block: u32) -> (r: u32)
    requires
        block > 0,
    ensures
        r == ceil_div(extent as int, block as int),
        extent >= 1 ==> r >= 1,
{
    let whole: u32 = extent / block;
    let rest: u32 = extent % block;
    proof {
        let (e, b) = (extent as int, block as int);
        assert(e == b * (e / b) + e % b && 0 <= e % b < b) by (nonlinear_arith)
            requires
                b > 0,
        ;
        assert(ceil_div(e, b) == if e % b == 0 {
            e / b
        } else {
            e / b + 1
        }) by (nonlinear_arith)
            requires
                b > 0,
                e == b * (e / b) + e % b,
                0 <= e % b < b,
        ;
        assert(e >= 1 && e % b == 0 ==> e / b >= 1) by (nonlinear_arith)
            requires
                b > 0,
                e == b * (e / b) + e % b,
        ;
        assert(e / b <= e) by (nonlinear_arith)
            requires
                b > 0,
                e >= 0,
        ;
        assert(e % b != 0 ==> e / b < u32::MAX) by (nonlinear_arith)
            requires
                b > 0,
                0 <= e <= u32::MAX,
                e == b * (e / b) + e % b,
                0 <= e % b,
        ;
    }
    if rest == 0 {
        whole
    } else {
        whole + 1
    }
}

fn saturating_product(a: u32, b: u32) -> (r: u32)
    ensures
        r == saturated(a * b),
{
    assert(0 <= a * b <= 0xFFFF_FFFF * 0xFFFF_FFFF) by (nonlinear_arith)
        requires
            0 <= a <= 0xFFFF_FFFF,
            0 <= b <= 0xFFFF_FFFF,
    ;
    let product: u64 = a as u64 * b as u64;
    if product <= u32::MAX as u64 {
        product as u32
    } else {
        u32::MAX
    }
}

/// The row pitch of a level, from the block geometry of its format.
pub fn block_row_pitch(width: u32, block_width: u32, block_bytes: u32, bytes_per_pixel: u32) -> (r:
    u32)
    requires
        block_width <= 1 ==> row_fits(width as int, bytes_per_pixel as int),
    ensures
        r == (if block_width > 1 {
            saturated(ceil_div(width as int, block_width as int) * block_bytes)
        } else {
            row_pitch(width as int, bytes_per_pixel as int)
        }),
{
    if block_width > 1 {
        saturating_product(blocks_across(width, block_width), block_bytes)
    } else {
        linear_row_pitch(width, bytes_per_pixel)
    }
}

/// Width, height, byte size and row pitch of one level of single pixels, for a
/// format that is known by its pixel size alone.
pub fn linear_mip_size(base_width: u32, base_height: u32, level: u32, bytes_per_pixel: u32) -> (r: (
    u32,
    u32,
    u32,
    u32,
))
    requires
        level < 32,
        row_fits(mip_extent(base_width, level) as int, bytes_per_pixel as int),
    ensures
        (r.0 as int, r.1 as int, r.2 as int, r.3 as int) == linear_level(
            mip_extent(base_width, level),
            mip_extent(base_height, level),
            bytes_per_pixel,
        ),
{
    let w: u32 = level_extent(base_width, level);
    let h: u32 = level_extent(base_height, level);
    let bytes_per_row: u32 = linear_row_pitch(w, bytes_per_pixel);
    (w, h, saturating_product(bytes_per_row, h), bytes_per_row)
}

/// The number of mip levels that a texture has room for.
pub fn compute_mip_count(width: u32, height: u32) -> (r: u32)
    ensures
        is_full_chain(larger(width, height), r),
{
    let max_dim: u32 = if width < height {
        height
    } else {
        width
    };
    if max_dim == 0 {
        return 1;
    }
    proof {
        vstd::std_specs::bits::axiom_u32_leading_zeros(max_dim);
        let zeros = vstd::std_specs::bits::u32_leading_zeros(max_dim);
        let top = (31 - zeros) as u32;
        assert(max_dim >> top == 1) by (bit_vector)
            requires
                top < 32,
                (max_dim >> top) & 1u32 != 0u32,
                top == 31 || max_dim >> ((top + 1) as u32) == 0,
        ;
    }
    32 - max_dim.leading_zeros()
}

/// The number of mip levels that a volume texture has room for.
pub fn compute_volume_mip_count(width: u32, height: u32, depth: u32) -> (r: u32)
    ensures
        is_full_chain(larger(larger(width, height), depth), r),
{
    let wider: u32 = if width < height {
        height
    } else {
        width
    };
    compute_mip_count(wider, depth)
}

/// The level count that a request resolves to: all of them for zero, and no
/// more than there are.
pub fn resolve_mip_levels(requested: u32, natural: u32) -> (r: u32)
    ensures
        r == (if requested == 0 || requested > natural {
            natural
        } else {
            requested
        }),
        r <= natural,
{
    if requested == 0 || requested > natural {
        natural
    } else {
        requested
    }
}

/// What a standalone surface allocates.
#[derive(Clone, Copy, Debug, PartialEq, Eq, Structural)]
pub enum StandaloneSurfaceKind {
    /// A single-sample texture, and a multisampled companion above one sample.
    ColorTarget,
    /// One texture, multisampled in place.
    DepthStencil,
}

/// The bytes that a standalone surface occupies, with every texture that was
/// allocated for it.
pub fn standalone_surface_bytes(
    width: u32,
    height: u32,
    d3d_format: u32,
    sample_count: u32,
    kind: StandaloneSurfaceKind,
) -> (r: u64)
    requires
        surface_fits(width, height, d3d_format),
    ensures
        r == surface_size(width, height, d3d_format) * surface_copies(kind, sample_count),
{
    let copies: u64 = match kind {
        StandaloneSurfaceKind::ColorTarget => {
            if sample_count > 1 {
                sample_count as u64 + 1
            } else {
                1
            }
        },
        StandaloneSurfaceKind::DepthStencil => {
            if sample_count < 1 {
                1
            } else {
                sample_count as u64
            }
        },
    };
    let bytes: u64 = surface_bytes(width, height, d3d_format);
    assert(0 <= bytes * copies <= 0xFFFF_FFFF * 0x1_0000_0000) by (nonlinear_arith)
        requires
            0 <= bytes <= 0xFFFF_FFFF,
            0 <= copies <= 0x1_0000_0000,
    ;
    bytes * copies
}

/// The bytes of one surface, in the units of the application's own format.
///
/// The figure is that of the top level of a texture of the same size and
/// format. It is zero for a format without a mapping.
pub fn surface_bytes(width: u32, height: u32, d3d_format: u32) -> (r: u64)
    requires
        surface_fits(width, height, d3d_format),
    ensures
        r == surface_size(width, height, d3d_format),
        r <= u32::MAX,
{
    match lookup_d3d_format(d3d_format) {
        Some(fmt) => {
            let size: (u32, u32, u32, u32) = compute_mip_size(width, height, 0, &fmt);
            size.2 as u64
        },
        None => match depth_format_bytes_per_pixel(d3d_format) {
            Some(bytes) => {
                let size: (u32, u32, u32, u32) = linear_mip_size(width, height, 0, bytes);
                size.2 as u64
            },
            None => 0,
        },
    }
}

/// The bytes of a pixel of a depth format, as the application counts them.
pub fn depth_format_bytes_per_pixel(d3d_format: u32) -> (r: Option<u32>)
    ensures
        r == depth_bytes(d3d_format),
{
    match d3d_format {
        D3DFMT_D16 | D3DFMT_D16_LOCKABLE | D3DFMT_D15S1 | D3DFMT_DF16 => Some(2),
        D3DFMT_D32 | D3DFMT_D32F_LOCKABLE | D3DFMT_D24X8 | D3DFMT_D24S8 | D3DFMT_D24X4S4
        | D3DFMT_D24FS8 | D3DFMT_DF24 | D3DFMT_INTZ => Some(4),
        _ => None,
    }
}

/// Every depth format has a size, so none is charged nothing, and only depth
/// formats have one. No format is both a depth and a colour format.
pub proof fn depth_tables_agree(d3d_format: u32)
    ensures
        depth_layout(d3d_format) is Some <==> depth_bytes(d3d_format) is Some,
        depth_layout(d3d_format) is Some ==> color_layout(d3d_format) is None,
{
}

/// A format has a name of its own exactly where it has a mapping.
pub proof fn named_formats_are_mapped(d3d_format: u32)
    ensures
        name_of(d3d_format) == "D3DFMT_unknown"@ <==> color_layout(d3d_format) is None
            && depth_layout(d3d_format) is None,
{
    reveal_strlit("A8R8G8B8");
    reveal_strlit("X8R8G8B8");
    reveal_strlit("A8B8G8R8");
    reveal_strlit("X8B8G8R8");
    reveal_strlit("R8G8B8");
    reveal_strlit("R5G6B5");
    reveal_strlit("A1R5G5B5");
    reveal_strlit("X1R5G5B5");
    reveal_strlit("A4R4G4B4");
    reveal_strlit("A8");
    reveal_strlit("A8L8");
    reveal_strlit("L8");
    reveal_strlit("L16");
    reveal_strlit("G16R16");
    reveal_strlit("A16B16G16R16");
    reveal_strlit("R16F");
    reveal_strlit("G16R16F");
    reveal_strlit("A16B16G16R16F");
    reveal_strlit("R32F");
    reveal_strlit("G32R32F");
    reveal_strlit("A32B32G32R32F");
    reveal_strlit("ATI1");
    reveal_strlit("V8U8");
    reveal_strlit("DXT1");
    reveal_strlit("DXT2");
    reveal_strlit("DXT3");
    reveal_strlit("DXT4");
    reveal_strlit("DXT5");
    reveal_strlit("YUY2");
    reveal_strlit("UYVY");
    reveal_strlit("D16_LOCKABLE");
    reveal_strlit("D32");
    reveal_strlit("D15S1");
    reveal_strlit("D24S8");
    reveal_strlit("D24X8");
    reveal_strlit("D24X4S4");
    reveal_strlit("D16");
    reveal_strlit("D32F_LOCKABLE");
    reveal_strlit("D24FS8");
    reveal_strlit("INTZ");
    reveal_strlit("DF24");
    reveal_strlit("DF16");
    reveal_strlit("D3DFMT_unknown");
    assert("D3DFMT_unknown"@.len() == 14);
    if color_layout(d3d_format) is Some || depth_layout(d3d_format) is Some {
        assert(name_of(d3d_format).len() < 14);
    }
}

/// What a device lacks changes neither the set of formats nor the layout of
/// their source: only the Metal format and the swizzle can differ, and a format
/// that is widened has no swizzle.
pub proof fn devices_agree_on_the_source(d3d_format: u32, native_packed16: bool)
    ensures
        device_layout(d3d_format, true) == color_layout(d3d_format),
        device_layout(d3d_format, native_packed16) is Some <==> color_layout(d3d_format) is Some,
        device_layout(d3d_format, native_packed16) matches Some(on_device) ==> {
            let source = color_layout(d3d_format)->0;
            &&& on_device.bytes_per_pixel == source.bytes_per_pixel
            &&& on_device.block_width == source.block_width
            &&& on_device.block_height == source.block_height
            &&& on_device.block_bytes == source.block_bytes
            &&& on_device.has_alpha == source.has_alpha
            &&& on_device.metal_pixel_format != source.metal_pixel_format
                ==> on_device.metal_pixel_format == PixelFormat::Bgra8Unorm
                && on_device.swizzle is None
        },
{
}

/// A row pitch is a multiple of four that holds the row and wastes less than
/// four bytes.
pub proof fn row_pitch_is_tight(width: u32, bytes_per_pixel: u32)
    ensures
        row_pitch(width as int, bytes_per_pixel as int) % 4 == 0,
        width * bytes_per_pixel <= row_pitch(width as int, bytes_per_pixel as int) < width
            * bytes_per_pixel + 4,
{
}

/// Every colour format strides by a multiple of four bytes at every width.
pub proof fn every_pitch_is_aligned(width: u32, height: u32, d3d_format: u32)
    requires
        color_layout(d3d_format) is Some,
    ensures
        level_size(width, height, color_layout(d3d_format)->0).3 % 4 == 0,
{
    let layout = color_layout(d3d_format)->0;
    if layout.compressed() {
        let blocks = ceil_div(width as int, 4);
        assert(layout.block_bytes == 8 || layout.block_bytes == 16);
        assert((blocks * 8) % 4 == 0 && (blocks * 16) % 4 == 0);
    }
}

/// The pitch that follows from the block geometry of a format is the pitch of
/// its levels.
pub proof fn block_geometry_gives_the_pitch(width: u32, height: u32, layout: Layout)
    requires
        layout.block_height >= 1,
        height >= 1,
        level_fits(width, height, layout),
    ensures
        level_size(width, height, layout).3 == (if layout.block_width > 1 {
            saturated(ceil_div(width as int, layout.block_width as int) * layout.block_bytes)
        } else {
            row_pitch(width as int, layout.bytes_per_pixel as int)
        }),
{
    if layout.compressed() {
        let across = ceil_div(width as int, layout.block_width as int);
        let down = ceil_div(height as int, layout.block_height as int);
        assert(across >= 0) by (nonlinear_arith)
            requires
                across == (width + layout.block_width - 1) / layout.block_width as int,
                layout.block_width > 1,
        ;
        assert(down >= 1) by (nonlinear_arith)
            requires
                down == (height + layout.block_height - 1) / layout.block_height as int,
                height >= 1,
                layout.block_height >= 1,
        ;
        assert(across * layout.block_bytes <= u32::MAX) by (nonlinear_arith)
            requires
                across >= 0,
                down >= 1,
                across * layout.block_bytes * down <= u32::MAX,
        ;
    }
}

/// A full chain ends at a single texel, and at no level before.
pub proof fn full_chain_ends_at_one_texel(width: u32, height: u32, count: u32, level: u32)
    requires
        is_full_chain(larger(width, height), count),
        level < count,
    ensures
        level == count - 1 <==> mip_extent(width, level) == 1 && mip_extent(height, level) == 1,
{
    let last = (count - 1) as u32;
    assert(level <= last < 32 && width >> last <= 1 && level < last && height >= width
        ==> height >> level != 1 || height >> last != 1) by (bit_vector);
    assert(level <= last < 32 && level < last && width >= height ==> width >> level != 1
        || width >> last != 1) by (bit_vector);
    assert(level < last < 32 && width >> last == 1 ==> width >> level != 0) by (bit_vector);
    assert(level < last < 32 && height >> last == 1 ==> height >> level != 0) by (bit_vector);
    assert(last < 32 && width >= height && width >> last == 1 ==> height >> last <= 1)
        by (bit_vector);
    assert(last < 32 && height >= width && height >> last == 1 ==> width >> last <= 1)
        by (bit_vector);
    assert(0u32 >> 0u32 == 0) by (bit_vector);
}

/// The length of a full chain is determined by the extent.
pub proof fn full_chain_is_unique(extent: u32, a: u32, b: u32)
    requires
        is_full_chain(extent, a),
        is_full_chain(extent, b),
    ensures
        a == b,
{
    if extent != 0 {
        let (i, j) = ((a - 1) as u32, (b - 1) as u32);
        assert(i == j) by (bit_vector)
            requires
                i < 32,
                j < 32,
                extent >> i == 1,
                extent >> j == 1,
        ;
    }
}

} // verus!
