//! Shaders for the fixed-function pipeline.
//!
//! A key holds what the render state says of a stage, and each key has its own
//! Metal source. The constants that the source reads lie in fixed rows of one
//! buffer: the world-view matrix in rows 0 to 3, the projection in 4 to 7, fog
//! in 8, the ambient colour in 9, the material in 10 to 14, the lights from 15
//! on, the texture matrices from 63 on, and the blend palette from 95 on. The
//! limits and the scale of points come in a structure of their own, and the
//! position fix-up in a vector: the shift of half a pixel, the choice to clamp
//! depth, and the rendered pixels per reported one. The pixel stage reads the
//! texture factor in row 0 and the constant of stage `i` in row `i + 1`.

pub mod key;
pub mod laws;
pub mod light_meaning;
pub mod meaning;
pub mod pixel;
pub mod vertex;
pub mod vertex_meaning;
