//! Verified core of a Direct3D 9 implementation on top of Metal.
//!
//! The crate holds the parts of the driver that decide and compute: shader
//! bytecode parsing and translation, the format tables, and the small state
//! machines behind the device objects.

pub mod channels;
pub mod content_hash;
pub mod d3d;
pub mod dxso;
pub mod fetch4;
pub mod format;
pub mod format_probe;
pub mod fullscreen_resize;
pub mod gamma;
pub mod gpu_caps;
pub mod ids;
pub mod level_authority;
pub mod library_index;
pub mod metal;
pub mod staging_coverage;
pub mod text;
