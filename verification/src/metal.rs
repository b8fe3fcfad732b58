//! The Metal pixel formats and texture swizzles that resources are backed by.

use vstd::prelude::*;

verus! {

/// A Metal pixel format.
#[derive(Clone, Copy, Debug, PartialEq, Eq, Hash, Structural)]
pub enum PixelFormat {
    A8Unorm,
    R8Unorm,
    Rg8Unorm,
    Rg8Snorm,
    B5G6R5Unorm,
    Bgr5A1Unorm,
    Abgr4Unorm,
    Bgra8Unorm,
    Rgba8Unorm,
    R16Unorm,
    Rg16Unorm,
    Rgba16Unorm,
    R16Float,
    Rg16Float,
    Rgba16Float,
    R32Float,
    Rg32Float,
    Rgba32Float,
    Bc1Rgba,
    Bc2Rgba,
    Bc3Rgba,
    Bc4RUnorm,
    Depth32Float,
    Depth32FloatStencil8,
}

/// The source of one channel that a sample returns.
#[derive(Clone, Copy, Debug, PartialEq, Eq, Hash, Structural)]
pub enum Swizzle {
    Red,
    Green,
    Blue,
    Alpha,
    One,
}

} // verus!
