use vstd::prelude::*;

verus! {

/// Why a column build was rejected.
#[derive(Copy, Clone, PartialEq, Eq, Structural, Debug)]
pub enum ChunkError {
    /// The column does not hold exactly 24 sections, or a section does not
    /// hold exactly 4096 voxels.
    ShapeMismatch,
    /// The column holds more distinct voxel types than the widest palette
    /// index can address.
    PaletteOverflow,
}

} // verus!
