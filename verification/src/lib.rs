//! A cubic surface extractor for voxel volumes.
//!
//! The crate turns a dense three-dimensional grid of voxels into a
//! cube-faceted polygon mesh: every face of the mesh lies on an axis plane
//! and separates a solid voxel from an empty one.  Vertices are shared
//! between neighbouring faces of equal material, and coplanar quads of the
//! same material can be merged into larger rectangles.

pub mod cubic_surface_extractor;
pub mod mesh;
pub mod raw_volume;
pub mod raw_volume_sampler;
pub mod region;
pub mod sampler;
pub mod vec3;
pub mod volume;
pub mod voxel;
