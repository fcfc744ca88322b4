//! Compression of a vertical column of voxel data into sparse octrees.
//!
//! A column is 24 sections, each a 16x16x16 cube of voxel types. A build pass
//! collects the distinct voxel types into a palette (index <-> type), picks an
//! 8-bit or 16-bit index width, and turns each section into an octree whose
//! uniform sub-cubes collapse to single leaves. Point lookups walk the octree
//! and resolve the palette index back to the voxel type.

pub mod block;
pub mod column;
pub mod coord;
pub mod error;
pub mod extmap;
pub mod node;
pub mod palette;
