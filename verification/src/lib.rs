//! Converts a 2D tile grid (a level map) into a 3D renderable mesh: a list of
//! positioned, textured, lit vertices plus a 16-bit triangle index buffer,
//! together with the texture-atlas addressing that picks each tile's cell out
//! of a shared 8x8 texture sheet.
//!
//! All geometry is exact integer arithmetic:
//! - world positions are stored in *half units* (twice the world coordinate),
//!   so that corners of a cube of side `s` centered on a grid point are
//!   integers even though they sit half a tile away from the center;
//! - texture coordinates are stored as atlas *pixel* numerators; dividing by
//!   the atlas pixel dimensions yields the normalized UVs.
//!
//! The rendering stack (window, GPU buffers, shaders, image decoding, JSON
//! decoding) is a collaborator outside this crate; it converts these exact
//! buffers to floating point at the upload boundary.

pub mod errors;
pub mod map;
pub mod meshutils;
pub mod resources;
pub mod texture;
pub mod tile;
