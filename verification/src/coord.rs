use vstd::prelude::*;

verus! {

/// A position within one 16x16x16 section, bit-packed into a single integer
/// key: y in bits 16 and up, x in bits 8..12, z in bits 0..4.
///
/// For coordinates in `[0, 15]` the packing round-trips exactly: the three
/// extractors below recover the triple handed to `new`.
pub struct LocalBlockPosition {
    pub c: u32,
}

/// A block position in world space; only the low 16 bits of `y` are kept.
pub struct BlockPosition {
    pub x: u32,
    pub y: u16,
    pub z: u32,
}

impl LocalBlockPosition {
    /// The x coordinate encoded in the key.
    pub open spec fn x_spec(self) -> u32 {
        (self.c >> 8) & 0x0f
    }

    /// The y coordinate encoded in the key.
    pub open spec fn y_spec(self) -> u32 {
        self.c >> 16
    }

    /// The z coordinate encoded in the key.
    pub open spec fn z_spec(self) -> u32 {
        self.c & 0x0f
    }

    /// Packs a coordinate triple into a key; unpacking recovers the triple.
    pub fn new(x: u32, y: u32, z: u32) -> (r: Self)
        requires
            x < 16,
            y < 16,
            z < 16,
        ensures
            r.x_spec() == x,
            r.y_spec() == y,
            r.z_spec() == z,
    {
        proof {
            assert((((y << 16 | x << 8 | z) >> 8) & 0x0f) == x && ((y << 16 | x << 8 | z) >> 16)
                == y && (((y << 16 | x << 8 | z)) & 0x0f) == z) by (bit_vector)
                requires
                    x < 16,
                    y < 16,
                    z < 16,
            ;
        }
        Self { c: y << 16 | x << 8 | z }
    }

    /// Packs the section-local part of a world position; the position's
    /// coordinates must already be section-local.
    pub fn from_position(p: &BlockPosition) -> (r: Self)
        requires
            p.x < 16,
            p.y < 16,
            p.z < 16,
        ensures
            r.x_spec() == p.x,
            r.y_spec() == p.y as u32,
            r.z_spec() == p.z,
    {
        Self::new(p.x, p.y as u32, p.z)
    }

    /// Extracts the x coordinate from the key.
    pub fn x(&self) -> (r: u32)
        ensures
            r == self.x_spec(),
    {
        (self.c >> 8) & 0x0f
    }

    /// Extracts the y coordinate from the key.
    pub fn y(&self) -> (r: u32)
        ensures
            r == self.y_spec(),
    {
        self.c >> 16
    }

    /// Extracts the z coordinate from the key.
    pub fn z(&self) -> (r: u32)
        ensures
            r == self.z_spec(),
    {
        self.c & 0x0f
    }
}

impl BlockPosition {
    /// Builds a world position; `y` is truncated to its low 16 bits.
    pub fn new(x: u32, y: u32, z: u32) -> (r: Self)
        ensures
            r.x == x,
            r.y == y as u16,
            r.z == z,
    {
        Self { x, y: y as u16, z }
    }
}

} // verus!
