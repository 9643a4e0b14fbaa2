pub mod aabb2i;
pub mod gfx;
pub mod selection;
pub mod vec2i;
pub mod vec3i;

pub use aabb2i::Aabb2i;
pub use vec2i::Vec2i;
pub use vec3i::Vec3i;
