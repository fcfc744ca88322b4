//! The sparse octree over one 16x16x16 section: a recursive node type,
//! generic over the palette index width, with its builder and its point
//! lookup.
//!
//! The mathematical shape of a node is `NodeShape`; `build_model` is the
//! canonical shape of a region, so the builder's result is pinned completely:
//! building the same section twice gives the same shape.

use vstd::prelude::*;

use crate::coord::LocalBlockPosition;

verus! {

/// The edge length of the smallest subdivided cube: a non-uniform region of
/// this edge becomes a dense leaf.
pub const MINIMAL_NODE_SIZE: usize = 4;

/// An unsigned integer type narrow enough to hold a palette index. Octrees
/// and index-form sections are generic over it, which realizes the choice
/// between 8-bit and 16-bit palette indices.
pub trait PaletteIndex: Sized + Copy {
    /// The integer the index holds.
    spec fn as_int(self) -> int;

    /// The largest integer an index can hold.
    spec fn max_spec() -> int;

    /// The index holding integer `v`.
    spec fn from_int(v: int) -> Self;

    /// Encoding an in-range integer and reading it back changes nothing.
    proof fn lemma_from_int(v: int)
        requires
            0 <= v <= Self::max_spec(),
        ensures
            Self::from_int(v).as_int() == v,
    ;

    /// Converts the index to a machine integer.
    fn to_usize(self) -> (r: usize)
        ensures
            r == self.as_int(),
    ;

    /// Builds the index holding `v`.
    fn from_usize(v: usize) -> (r: Self)
        requires
            v <= Self::max_spec(),
        ensures
            r == Self::from_int(v as int),
    ;

    /// Whether two indices are the same.
    fn eq_val(self, other: Self) -> (r: bool)
        ensures
            r == (self == other),
    ;
}

impl PaletteIndex for u8 {
    open spec fn as_int(self) -> int {
        self as int
    }

    open spec fn max_spec() -> int {
        255
    }

    open spec fn from_int(v: int) -> Self {
        v as u8
    }

    proof fn lemma_from_int(v: int) {
    }

    fn to_usize(self) -> (r: usize) {
        self as usize
    }

    fn from_usize(v: usize) -> (r: Self) {
        v as u8
    }

    fn eq_val(self, other: Self) -> (r: bool) {
        self == other
    }
}

impl PaletteIndex for u16 {
    open spec fn as_int(self) -> int {
        self as int
    }

    open spec fn max_spec() -> int {
        65535
    }

    open spec fn from_int(v: int) -> Self {
        v as u16
    }

    proof fn lemma_from_int(v: int) {
    }

    fn to_usize(self) -> (r: usize) {
        self as usize
    }

    fn from_usize(v: usize) -> (r: Self) {
        v as u16
    }

    fn eq_val(self, other: Self) -> (r: bool) {
        self == other
    }
}

/// One octree node covering a cubic region whose edge is a power of two.
#[derive(PartialEq, Eq, Debug)]
pub enum Node<T: PaletteIndex> {
    /// The whole cube holds this one index.
    Block(T),
    /// A cube of minimal edge: one index per voxel, row-major.
    Blocks(Vec<T>),
    /// Eight children of half the edge, in fixed octant order.
    Nodes(Vec<Node<T>>),
}

/// The mathematical shape of an octree node: the same three kinds, over
/// mathematical sequences.
pub enum NodeShape<T> {
    /// The whole cube holds this one index.
    Block(T),
    /// A cube of minimal edge: one index per voxel, row-major.
    Blocks(Seq<T>),
    /// Eight children of half the edge, in fixed octant order.
    Nodes(Seq<NodeShape<T>>),
}

/// The voxel at `(x, y, z)` of a section held as a flat row-major sequence
/// of edge 16.
pub open spec fn sec_at<T>(s: Seq<T>, x: int, y: int, z: int) -> T {
    s[x + z * 16 + y * 256]
}

/// Whether every voxel of the cubic region at `(x, y, z)` with the given
/// edge equals the region's first voxel.
pub open spec fn region_uniform<T>(s: Seq<T>, x: int, y: int, z: int, size: int) -> bool {
    forall|i: int, j: int, k: int|
        x <= i < x + size && y <= j < y + size && z <= k < z + size ==> #[trigger] sec_at(
            s,
            i,
            j,
            k,
        ) == sec_at(s, x, y, z)
}

/// The octant a coordinate triple falls in when a cube splits at `half`:
/// bit 0 says x is high, bit 1 says z is high, bit 2 says y is high.
pub open spec fn octant(x: int, y: int, z: int, half: int) -> int {
    (if x >= half {
        1int
    } else {
        0int
    }) + (if z >= half {
        2int
    } else {
        0int
    }) + (if y >= half {
        4int
    } else {
        0int
    })
}

/// The mathematical shape of a node, read at the given edge length.
pub open spec fn node_model<T: PaletteIndex>(n: Node<T>, edge: int) -> NodeShape<T>
    decreases edge,
{
    match n {
        Node::Block(t) => NodeShape::Block(t),
        Node::Blocks(v) => NodeShape::Blocks(v@),
        Node::Nodes(c) => NodeShape::Nodes(
            if edge >= 2 {
                Seq::new(c@.len(), |i: int| node_model(c@[i], edge / 2))
            } else {
                Seq::empty()
            },
        ),
    }
}

/// Well-formedness of a node shape at the given edge: dense leaves only at
/// the minimal edge with exactly 64 entries, and branches of exactly eight
/// well-formed children of half the edge.
pub open spec fn shape_wf<T: PaletteIndex>(m: NodeShape<T>, edge: int) -> bool
    decreases edge,
{
    match m {
        NodeShape::Block(_) => edge >= 1,
        NodeShape::Blocks(v) => edge == 4 && v.len() == 64,
        NodeShape::Nodes(c) => if edge >= 8 {
            edge % 2 == 0 && c.len() == 8 && (forall|i: int|
                0 <= i < 8 ==> shape_wf(#[trigger] c[i], edge / 2))
        } else {
            false
        },
    }
}

/// The index stored at `(x, y, z)` of a node shape with the given edge.
pub open spec fn shape_at<T: PaletteIndex>(m: NodeShape<T>, edge: int, x: int, y: int, z: int) -> T
    decreases edge,
{
    match m {
        NodeShape::Block(t) => t,
        NodeShape::Blocks(v) => v[x + z * 4 + y * 16],
        NodeShape::Nodes(c) => if edge >= 2 {
            let half = edge / 2;
            shape_at(
                c[octant(x, y, z, half)],
                half,
                if x >= half {
                    x - half
                } else {
                    x
                },
                if y >= half {
                    y - half
                } else {
                    y
                },
                if z >= half {
                    z - half
                } else {
                    z
                },
            )
        } else {
            arbitrary()
        },
    }
}

/// Whether every index a node shape stores at a valid coordinate lies below
/// the given bound.
pub open spec fn shape_bounded<T: PaletteIndex>(m: NodeShape<T>, edge: int, b: int) -> bool {
    forall|x: int, y: int, z: int|
        0 <= x < edge && 0 <= y < edge && 0 <= z < edge ==> (#[trigger] shape_at(
            m,
            edge,
            x,
            y,
            z,
        )).as_int() < b
}

/// The canonical octree shape of the cubic region at `(x, y, z)` with the
/// given edge of a flat section: a single leaf for a uniform region, a dense
/// leaf at the minimal edge, and otherwise eight octant children.
pub open spec fn build_model<T: PaletteIndex>(
    s: Seq<T>,
    x: int,
    y: int,
    z: int,
    size: int,
) -> NodeShape<T>
    decreases size,
{
    if region_uniform(s, x, y, z, size) {
        NodeShape::Block(sec_at(s, x, y, z))
    } else if size <= 4 {
        NodeShape::Blocks(Seq::new(64, |q: int| sec_at(s, x + q % 4, y + q / 16, z + (q / 4) % 4)))
    } else {
        let half = size / 2;
        NodeShape::Nodes(
            Seq::new(
                8,
                |i: int|
                    build_model(
                        s,
                        x + (i % 2) * half,
                        y + (i / 4) * half,
                        z + ((i / 2) % 2) * half,
                        half,
                    ),
            ),
        )
    }
}

/// An argument triple addressing a whole aligned sub-cube of a section.
pub open spec fn region_ok(x: int, y: int, z: int, size: int) -> bool {
    &&& (size == 4 || size == 8 || size == 16)
    &&& 0 <= x && x + size <= 16
    &&& 0 <= y && y + size <= 16
    &&& 0 <= z && z + size <= 16
}

/// Dividing a value below `2 * h` by `h` reads off whether the value lies in
/// the upper half, and the remainder is the value reduced into the lower
/// half.
pub proof fn lemma_div_bit(v: int, h: int)
    requires
        0 <= v < 2 * h,
        h >= 1,
    ensures
        v / h == (if v >= h {
            1int
        } else {
            0int
        }),
        v % h == (if v >= h {
            v - h
        } else {
            v
        }),
{
    if v >= h {
        assert(v / h == 1 && v % h == v - h) by (nonlinear_arith)
            requires
                h >= 1,
                h <= v < 2 * h,
        ;
    } else {
        assert(v / h == 0 && v % h == v) by (nonlinear_arith)
            requires
                h >= 1,
                0 <= v < h,
        ;
    }
}

/// Multiplying by a bit keeps or drops the other factor.
pub proof fn lemma_mul_bit(b: int, h: int)
    requires
        0 <= b <= 1,
    ensures
        b * h == (if b == 1 {
            h
        } else {
            0int
        }),
{
    if b == 1 {
        assert(b * h == h) by (nonlinear_arith)
            requires
                b == 1,
        ;
    } else {
        assert(b * h == 0) by (nonlinear_arith)
            requires
                b == 0,
        ;
    }
}

/// A region in which every voxel equals the region's first voxel builds to a
/// single uniform leaf: homogeneous regions compress maximally.
pub proof fn lemma_uniform_region_leaf<T: PaletteIndex>(
    s: Seq<T>,
    x: int,
    y: int,
    z: int,
    size: int,
)
    requires
        region_uniform(s, x, y, z, size),
    ensures
        build_model(s, x, y, z, size) == NodeShape::Block(sec_at(s, x, y, z)),
{
}

/// The canonical shape of a region is well formed and looks up to the
/// region's own voxels.
pub proof fn lemma_build_model_at<T: PaletteIndex>(
    s: Seq<T>,
    x: int,
    y: int,
    z: int,
    size: int,
    i: int,
    j: int,
    k: int,
)
    requires
        s.len() == 4096,
        region_ok(x, y, z, size),
        0 <= i < size,
        0 <= j < size,
        0 <= k < size,
    ensures
        shape_wf(build_model(s, x, y, z, size), size),
        shape_at(build_model(s, x, y, z, size), size, i, j, k) == sec_at(s, x + i, y + j, z + k),
    decreases size,
{
    let m = build_model(s, x, y, z, size);
    if region_uniform(s, x, y, z, size) {
        assert(sec_at(s, x + i, y + j, z + k) == sec_at(s, x, y, z));
    } else if size <= 4 {
        let q = i + k * 4 + j * 16;
        assert(q % 4 == i && q / 16 == j && (q / 4) % 4 == k) by (nonlinear_arith)
            requires
                0 <= i < 4,
                0 <= j < 4,
                0 <= k < 4,
                q == i + k * 4 + j * 16,
        ;
        assert(shape_at(m, size, i, j, k) == sec_at(s, x + q % 4, y + q / 16, z + (q / 4) % 4));
    } else {
        let half = size / 2;
        let o = octant(i, j, k, half);
        if i >= half {
            if j >= half {
                if k >= half {
                    assert(o == 7int);
                } else {
                    assert(o == 5int);
                }
            } else {
                if k >= half {
                    assert(o == 3int);
                } else {
                    assert(o == 1int);
                }
            }
        } else {
            if j >= half {
                if k >= half {
                    assert(o == 6int);
                } else {
                    assert(o == 4int);
                }
            } else {
                if k >= half {
                    assert(o == 2int);
                } else {
                    assert(o == 0int);
                }
            }
        }
        assert(0 <= o && o < 8);
        assert(o % 2 == 1 <==> i >= half);
        assert((o / 2) % 2 == 1 <==> k >= half);
        assert(o / 4 == 1 <==> j >= half);
        assert(0 <= o % 2 <= 1 && 0 <= (o / 2) % 2 <= 1 && 0 <= o / 4 <= 1);
        lemma_mul_bit(o % 2, half);
        lemma_mul_bit((o / 2) % 2, half);
        lemma_mul_bit(o / 4, half);
        assert(x + (o % 2) * half == (if i >= half {
            x + half
        } else {
            x
        }));
        assert(y + (o / 4) * half == (if j >= half {
            y + half
        } else {
            y
        }));
        assert(z + ((o / 2) % 2) * half == (if k >= half {
            z + half
        } else {
            z
        }));
        let cx = x + (o % 2) * half;
        let cy = y + (o / 4) * half;
        let cz = z + ((o / 2) % 2) * half;
        let ii = if i >= half {
            i - half
        } else {
            i
        };
        let jj = if j >= half {
            j - half
        } else {
            j
        };
        let kk = if k >= half {
            k - half
        } else {
            k
        };
        lemma_build_model_at::<T>(s, cx, cy, cz, half, ii, jj, kk);
        assert(cx + ii == x + i && cy + jj == y + j && cz + kk == z + k);
        assert forall|c: int| 0 <= c < 8 implies shape_wf(
            #[trigger] (m->Nodes_0)[c],
            half,
        ) by {
            assert(0 <= c % 2 <= 1 && 0 <= (c / 2) % 2 <= 1 && 0 <= c / 4 <= 1);
            assert(0 <= (c % 2) * half <= half && 0 <= ((c / 2) % 2) * half <= half && 0 <= (c / 4)
                * half <= half) by (nonlinear_arith)
                requires
                    0 <= c % 2 <= 1,
                    0 <= (c / 2) % 2 <= 1,
                    0 <= c / 4 <= 1,
                    half >= 0,
            ;
            lemma_build_model_at::<T>(
                s,
                x + (c % 2) * half,
                y + (c / 4) * half,
                z + ((c / 2) % 2) * half,
                half,
                0,
                0,
                0,
            );
        }
    }
}

/// Whether every voxel of the region equals the region's first voxel,
/// stopping at the first mismatch.
fn region_is_uniform<T: PaletteIndex>(
    section: &Vec<T>,
    x: usize,
    y: usize,
    z: usize,
    size: usize,
) -> (r: bool)
    requires
        section@.len() == 4096,
        region_ok(x as int, y as int, z as int, size as int),
    ensures
        r == region_uniform(section@, x as int, y as int, z as int, size as int),
{
    let first = section[x + z * 16 + y * 256];
    let mut j: usize = 0;
    while j < size
        invariant
            section@.len() == 4096,
            region_ok(x as int, y as int, z as int, size as int),
            j <= size,
            first == sec_at(section@, x as int, y as int, z as int),
            forall|a: int, b: int, c: int|
                x <= a < x + size && y <= b < y + j && z <= c < z + size ==> #[trigger] sec_at(
                    section@,
                    a,
                    b,
                    c,
                ) == first,
        decreases size - j,
    {
        let mut k: usize = 0;
        while k < size
            invariant
                section@.len() == 4096,
                region_ok(x as int, y as int, z as int, size as int),
                j < size,
                k <= size,
                first == sec_at(section@, x as int, y as int, z as int),
                forall|a: int, b: int, c: int|
                    x <= a < x + size && y <= b < y + j && z <= c < z + size ==> #[trigger] sec_at(
                        section@,
                        a,
                        b,
                        c,
                    ) == first,
                forall|a: int, c: int|
                    x <= a < x + size && z <= c < z + k ==> #[trigger] sec_at(
                        section@,
                        a,
                        y + j,
                        c,
                    ) == first,
            decreases size - k,
        {
            let mut i: usize = 0;
            while i < size
                invariant
                    section@.len() == 4096,
                    region_ok(x as int, y as int, z as int, size as int),
                    j < size,
                    k < size,
                    i <= size,
                    first == sec_at(section@, x as int, y as int, z as int),
                    forall|a: int, b: int, c: int|
                        x <= a < x + size && y <= b < y + j && z <= c < z + size
                            ==> #[trigger] sec_at(section@, a, b, c) == first,
                    forall|a: int, c: int|
                        x <= a < x + size && z <= c < z + k ==> #[trigger] sec_at(
                            section@,
                            a,
                            y + j,
                            c,
                        ) == first,
                    forall|a: int|
                        x <= a < x + i ==> #[trigger] sec_at(section@, a, y + j, z + k) == first,
                decreases size - i,
            {
                let v = section[(x + i) + (z + k) * 16 + (y + j) * 256];
                proof {
                    assert(v == sec_at(section@, x + i, y + j, z + k));
                }
                if !v.eq_val(first) {
                    proof {
                        assert(sec_at(section@, x + i, y + j, z + k) != sec_at(
                            section@,
                            x as int,
                            y as int,
                            z as int,
                        ));
                    }
                    return false;
                }
                i += 1;
            }
            k += 1;
        }
        j += 1;
    }
    true
}

impl<T: PaletteIndex> Node<T> {
    /// Builds the octree of a whole section of 4096 voxels: the result is
    /// exactly the canonical shape of the section, so two builds of the same
    /// section give identical trees.
    pub fn new(section: Vec<T>) -> (r: Self)
        requires
            section@.len() == 4096,
        ensures
            node_model(r, 16) == build_model(section@, 0, 0, 0, 16),
            shape_wf(node_model(r, 16), 16),
    {
        let r = Self::new_internal(&section, 0, 0, 0, 16);
        proof {
            lemma_build_model_at::<T>(section@, 0, 0, 0, 16, 0, 0, 0);
        }
        r
    }

    /// Builds the octree of the aligned sub-cube at `(x, y, z)` with the
    /// given edge: a uniform leaf where the region is homogeneous, a dense
    /// leaf at the minimal edge, and otherwise eight recursively built
    /// octants.
    pub fn new_internal(section: &Vec<T>, x: usize, y: usize, z: usize, size: usize) -> (r: Self)
        requires
            section@.len() == 4096,
            region_ok(x as int, y as int, z as int, size as int),
        ensures
            node_model(r, size as int) == build_model(
                section@,
                x as int,
                y as int,
                z as int,
                size as int,
            ),
        decreases size,
    {
        let first = section[x + z * 16 + y * 256];
        if region_is_uniform(section, x, y, z, size) {
            return Node::Block(first);
        }
        if size == MINIMAL_NODE_SIZE {
            let mut blocks: Vec<T> = Vec::new();
            let mut q: usize = 0;
            while q < 64
                invariant
                    section@.len() == 4096,
                    region_ok(x as int, y as int, z as int, 4),
                    q <= 64,
                    blocks@.len() == q,
                    forall|p: int|
                        0 <= p < q ==> blocks@[p] == sec_at(
                            section@,
                            x + p % 4,
                            y + p / 16,
                            z + (p / 4) % 4,
                        ),
                decreases 64 - q,
            {
                proof {
                    assert(0 <= q % 4 < 4 && 0 <= q / 16 < 4 && 0 <= (q / 4) % 4 < 4);
                }
                blocks.push(section[(x + q % 4) + (z + (q / 4) % 4) * 16 + (y + q / 16) * 256]);
                q += 1;
            }
            proof {
                assert(blocks@ =~= Seq::new(
                    64,
                    |p: int| sec_at(section@, x + p % 4, y + p / 16, z + (p / 4) % 4),
                ));
            }
            return Node::Blocks(blocks);
        }
        let half = size / 2;
        let mut children: Vec<Node<T>> = Vec::new();
        let mut ci: usize = 0;
        while ci < 8
            invariant
                section@.len() == 4096,
                region_ok(x as int, y as int, z as int, size as int),
                size == 8 || size == 16,
                half == size / 2,
                ci <= 8,
                children@.len() == ci,
                forall|c: int|
                    0 <= c < ci ==> node_model(#[trigger] children@[c], half as int)
                        == build_model(
                        section@,
                        x + (c % 2) * (half as int),
                        y + (c / 4) * (half as int),
                        z + ((c / 2) % 2) * (half as int),
                        half as int,
                    ),
            decreases 8 - ci,
        {
            proof {
                let c = ci as int;
                let h = half as int;
                assert(0 <= c % 2 <= 1 && 0 <= (c / 2) % 2 <= 1 && 0 <= c / 4 <= 1);
                assert((c % 2) * h == (if c % 2 == 1 {
                    h
                } else {
                    0int
                }) && ((c / 2) % 2) * h == (if (c / 2) % 2 == 1 {
                    h
                } else {
                    0int
                }) && (c / 4) * h == (if c / 4 == 1 {
                    h
                } else {
                    0int
                })) by (nonlinear_arith)
                    requires
                        0 <= c % 2 <= 1,
                        0 <= (c / 2) % 2 <= 1,
                        0 <= c / 4 <= 1,
                ;
            }
            let cx = x + (ci % 2) * half;
            let cy = y + (ci / 4) * half;
            let cz = z + ((ci / 2) % 2) * half;
            let child = Self::new_internal(section, cx, cy, cz, half);
            children.push(child);
            ci += 1;
        }
        let r = Node::Nodes(children);
        proof {
            let s = section@;
            let xi = x as int;
            let yi = y as int;
            let zi = z as int;
            let szi = size as int;
            let hi = szi / 2;
            assert(node_model(r, szi)->Nodes_0 =~= build_model(s, xi, yi, zi, szi)->Nodes_0);
        }
        r
    }

    /// Looks up the index stored for `pos` in a whole-section octree.
    pub fn get(&self, pos: LocalBlockPosition) -> (r: T)
        requires
            shape_wf(node_model(*self, 16), 16),
            pos.y_spec() < 16,
        ensures
            r == shape_at(
                node_model(*self, 16),
                16,
                pos.x_spec() as int,
                pos.y_spec() as int,
                pos.z_spec() as int,
            ),
    {
        let x = pos.x();
        let y = pos.y();
        let z = pos.z();
        proof {
            let c = pos.c;
            assert(((c >> 8) & 0x0f) < 16 && (c & 0x0f) < 16) by (bit_vector);
        }
        self.get_block_internal(x as u8, y as u8, z as u8, 16)
    }

    /// Walks the octree to the index stored at `(x, y, z)`: a uniform leaf
    /// answers directly, a dense leaf by its row-major entry, and a branch
    /// recurses into the octant the coordinates fall in.
    pub fn get_block_internal(&self, x: u8, y: u8, z: u8, size: u8) -> (r: T)
        requires
            shape_wf(node_model(*self, size as int), size as int),
            x < size,
            y < size,
            z < size,
        ensures
            r == shape_at(
                node_model(*self, size as int),
                size as int,
                x as int,
                y as int,
                z as int,
            ),
        decreases size,
    {
        match self {
            Node::Block(id) => *id,
            Node::Blocks(blocks) => blocks[x as usize + z as usize * MINIMAL_NODE_SIZE + y
                as usize * MINIMAL_NODE_SIZE * MINIMAL_NODE_SIZE],
            Node::Nodes(children) => {
                let child_size = size / 2;
                proof {
                    assert(size as int >= 8 && size as int % 2 == 0);
                    let hi = size as int / 2;
                    assert(child_size as int == hi);
                    assert(size as int == 2 * hi);
                    lemma_div_bit(x as int, hi);
                    lemma_div_bit(y as int, hi);
                    lemma_div_bit(z as int, hi);
                }
                let child_index = (x / child_size) + (y / child_size) * 4 + (z / child_size) * 2;
                proof {
                    let hi = size as int / 2;
                    assert(child_index as int == octant(x as int, y as int, z as int, hi));
                    let cm = node_model(*self, size as int);
                    assert(cm->Nodes_0.len() == children@.len());
                    assert(children@.len() == 8);
                    assert(cm->Nodes_0[child_index as int] == node_model(
                        children@[child_index as int],
                        hi,
                    ));
                    assert(shape_wf(cm->Nodes_0[child_index as int], hi));
                }
                children[child_index as usize].get_block_internal(
                    x % child_size,
                    y % child_size,
                    z % child_size,
                    child_size,
                )
            },
        }
    }
}

} // verus!
