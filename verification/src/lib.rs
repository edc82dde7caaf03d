//! Construction of GPU-upload-ready mesh geometry.
//!
//! The crate turns transformed vertex positions, per-vertex attributes and a
//! logical index list into packed vertex and index byte buffers, choosing the
//! narrowest index encoding that can address every vertex.  Positions and
//! attributes are carried as IEEE-754 single-precision bit patterns (`u32`),
//! so that the byte layout of every buffer is stated and proved exactly; the
//! floating-point matrix arithmetic that produces transformed positions lives
//! outside this crate.

pub mod bytes;
pub mod geometry;
pub mod mesh;
pub mod shapes;
pub mod transform;

pub use geometry::{AttributeSlot, Geometry, GeometryError, IndexFormat, VertexLayout};
pub use mesh::{Attr2, Attr3, IndexData, Mesh2, Mesh3, Pos3, Vertex2, Vertex3};
pub use shapes::{Cube, Pentagon, Rectangle};
pub use transform::Mat4Bits;
