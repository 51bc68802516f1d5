//! Gradient ("Perlin") noise building blocks and validated 2D geometry.
//!
//! The `perlin` module holds the integer core of the Improved Perlin Noise
//! algorithm: the fixed permutation table, the unit-cube cell wrap, the
//! two-stage corner hashing, and the gradient-direction selector.  A caller
//! supplies the floating-point glue (fade curve, linear interpolation and the
//! dot products) on top of these.
//!
//! The `geom` module holds validated 2D shapes over integer coordinates:
//! points with distance operations, and checked constructors for axis-aligned
//! boxes, ellipses and triangles.

pub mod geom;
pub mod perlin;
