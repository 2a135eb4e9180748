//! The fixed small-dimension vectors, with named fields.

mod vec1;
mod vec2;
mod vec3;

pub use vec1::Vec1D;
pub use vec2::Vec2D;
pub use vec3::Vec3D;
