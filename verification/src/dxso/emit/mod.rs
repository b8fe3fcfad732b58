//! Translation of programs to Metal shading-language text.

pub mod arith;
pub mod common;
pub mod complete;
pub mod context;
pub mod error;
pub mod float_meaning;
pub mod floats;
pub mod flow_meaning;
pub mod laws;
pub mod lower;
pub mod meaning;
pub mod metal;
pub mod operand_meaning;
pub mod operands;
pub mod pixel;
pub mod pixel_meaning;
pub mod texture;
pub mod texture_meaning;
pub mod variant;
pub mod vertex;
