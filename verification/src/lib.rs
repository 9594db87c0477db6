//! Convex polygons split into index triangles, and the decisions of a small
//! renderer that draws them: vertex buffer layout, index buffer bytes, surface
//! resizing, key handling and frame acquisition.

pub mod backends;
pub mod geometry;

pub use geometry::polygon::Polygon;
