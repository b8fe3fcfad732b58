//! Shader bytecode ("DXSO"): parsing into an intermediate representation and
//! translation of that representation to Metal shading-language text.

pub mod emit;
pub mod encoding;
pub mod ff;
pub mod ir;
pub mod numbering;
pub mod opcode;
pub mod parser;
pub mod queries;
pub mod stream;
pub mod tokens;
