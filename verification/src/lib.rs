//! Quad-to-mesh batching for glyph rendering, with an orthographic camera
//! and a GPU-uniform packer.
//!
//! Geometry is carried as exact rational scalars (`rational::Rat`), so every
//! coordinate computation is stated and proved exactly; a host program
//! converts the rationals to the GPU's native scalar format at the upload
//! boundary.

pub mod atlas;
pub mod camera;
pub mod control;
pub mod glyphs;
pub mod rational;
pub mod text;
pub mod uniform;
