//! A generic three-component vector with element-wise arithmetic,
//! scalar broadcast, negation and indexed access.

pub mod vec3;

pub use vec3::Vec3;
