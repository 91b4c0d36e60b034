//! Affine transformation matrices for a rendering pipeline.
//!
//! The core type is [`transform::Transformation`], a 4x4 homogeneous
//! transformation matrix whose entries are IEEE 754 binary32 bit patterns.
//! The [`texture`] module decodes PNG bytes into the bottom-up RGBA pixel
//! layout that the renderer expects.

pub mod texture;
pub mod transform;

pub use texture::TextureImage;
pub use texture::texture_image;
pub use transform::Transformation;
