//! The chunk column: one shared palette plus 24 per-section octree roots,
//! with the column-level build and the point lookup that resolves a stored
//! palette index back to its voxel type.

use vstd::prelude::*;

use crate::block::Block;
use crate::coord::LocalBlockPosition;
use crate::error::ChunkError;
use crate::node::{
    build_model, lemma_build_model_at, lemma_uniform_region_leaf, node_model, region_uniform,
    sec_at, shape_at, shape_bounded, shape_wf, Node, PaletteIndex,
};
use crate::palette::{
    first_index_of, first_occ, lemma_first_index_of_in_range, lemma_first_index_of_unique,
    lemma_first_occ_contains, IndexWidth, Palette, PALETTE_CAPACITY,
};

verus! {

/// The number of sections stacked in one column.
pub const SECTION_COUNT: usize = 24;

/// The number of voxels in one section.
pub const SECTION_VOLUME: usize = 4096;

/// The sections of a column as a sequence of flat voxel sequences.
pub open spec fn sections_view(sections: Vec<Vec<Block>>) -> Seq<Seq<Block>> {
    Seq::new(sections@.len(), |s: int| sections@[s]@)
}

/// Whether a column input has the right shape: exactly 24 sections of
/// exactly 4096 voxels each.
pub open spec fn col_shape_ok(sv: Seq<Seq<Block>>) -> bool {
    sv.len() == 24 && (forall|s: int| 0 <= s < 24 ==> (#[trigger] sv[s]).len() == 4096)
}

/// The codes of all voxels of a column in scan order: section by section,
/// row-major within each section.
pub open spec fn col_codes(sv: Seq<Seq<Block>>) -> Seq<u16> {
    Seq::new(24 * 4096, |p: int| sv[p / 4096][p % 4096].code_spec())
}

/// The palette code sequence a column yields: its distinct codes in first
/// occurrence order.
pub open spec fn col_palette(sv: Seq<Seq<Block>>) -> Seq<u16> {
    first_occ(col_codes(sv))
}

/// One section rewritten from voxel types to palette indices.
pub open spec fn indexed_sec<T: PaletteIndex>(sec: Seq<Block>, codes: Seq<u16>) -> Seq<T> {
    Seq::new(4096, |q: int| T::from_int(first_index_of(codes, sec[q].code_spec())))
}

/// The flat position of section `s`, offset `q` splits back into the pair.
proof fn lemma_flat_index(s: int, q: int)
    requires
        0 <= s,
        0 <= q < 4096,
    ensures
        (s * 4096 + q) / 4096 == s,
        (s * 4096 + q) % 4096 == q,
{
    assert((s * 4096 + q) / 4096 == s && (s * 4096 + q) % 4096 == q) by (nonlinear_arith)
        requires
            0 <= s,
            0 <= q < 4096,
    ;
}

/// The 24 octree roots of a column at the index width the build chose,
/// together with the shared palette.
pub enum Nodes {
    /// More than 255 distinct voxel types: 16-bit palette indices.
    Large(Vec<Node<u16>>, Palette),
    /// At most 255 distinct voxel types: 8-bit palette indices.
    Small(Vec<Node<u8>>, Palette),
}

/// A compressed chunk column: 24 sections as octrees over one shared
/// palette, immutable once built.
pub struct ChunkData {
    /// The per-section roots and the palette, bottom section first.
    pub nodes: Nodes,
}

impl ChunkData {
    /// The palette codes of the column, in index order.
    pub open spec fn palette_seq(&self) -> Seq<u16> {
        match self.nodes {
            Nodes::Large(_, p) => p@,
            Nodes::Small(_, p) => p@,
        }
    }

    /// Whether the column stores 8-bit palette indices.
    pub open spec fn is_small(&self) -> bool {
        self.nodes is Small
    }

    /// The palette index the octree of section `s` stores at `(x, y, z)`.
    pub open spec fn index_at(&self, s: int, x: int, y: int, z: int) -> int {
        match self.nodes {
            Nodes::Large(r, _) => shape_at(node_model(r@[s], 16), 16, x, y, z).as_int(),
            Nodes::Small(r, _) => shape_at(node_model(r@[s], 16), 16, x, y, z).as_int(),
        }
    }

    /// The voxel type stored at `(x, y, z)` of section `s`.
    pub open spec fn voxel_at(&self, s: int, x: int, y: int, z: int) -> Block {
        match Block::from_code_spec(self.palette_seq()[self.index_at(s, x, y, z)]) {
            Some(b) => b,
            None => arbitrary(),
        }
    }

    /// Internal consistency: a well-formed palette matching the width, 24
    /// well-formed roots whose stored indices all lie inside the palette,
    /// and only decodable codes in the palette.
    pub open spec fn wf(&self) -> bool {
        &&& match self.nodes {
            Nodes::Large(r, p) => {
                &&& p.wf()
                &&& p@.len() > 255
                &&& r@.len() == 24
                &&& forall|s: int|
                    0 <= s < 24 ==> shape_wf(node_model(#[trigger] r@[s], 16), 16)
                &&& forall|s: int|
                    0 <= s < 24 ==> shape_bounded(
                        node_model(#[trigger] r@[s], 16),
                        16,
                        p@.len() as int,
                    )
            },
            Nodes::Small(r, p) => {
                &&& p.wf()
                &&& p@.len() <= 255
                &&& r@.len() == 24
                &&& forall|s: int|
                    0 <= s < 24 ==> shape_wf(node_model(#[trigger] r@[s], 16), 16)
                &&& forall|s: int|
                    0 <= s < 24 ==> shape_bounded(
                        node_model(#[trigger] r@[s], 16),
                        16,
                        p@.len() as int,
                    )
            },
        }
        &&& forall|i: int|
            0 <= i < self.palette_seq().len() ==> Block::from_code_spec(
                #[trigger] self.palette_seq()[i],
            ) is Some
    }

    /// The index width the build chose for this column.
    pub fn width(&self) -> (r: IndexWidth)
        ensures
            (r == IndexWidth::Narrow) == self.is_small(),
    {
        match &self.nodes {
            Nodes::Small(_, _) => IndexWidth::Narrow,
            Nodes::Large(_, _) => IndexWidth::Wide,
        }
    }

    /// Looks up the voxel type at the section-local position `(x, y, z)` of
    /// section `s`.
    pub fn get_voxel(&self, s: usize, x: u32, y: u32, z: u32) -> (r: Block)
        requires
            self.wf(),
            s < 24,
            x < 16,
            y < 16,
            z < 16,
        ensures
            r == self.voxel_at(s as int, x as int, y as int, z as int),
    {
        let pos = LocalBlockPosition::new(x, y, z);
        match &self.nodes {
            Nodes::Small(roots, pal) => {
                let t = roots[s].get(pos);
                proof {
                    assert(shape_at(
                        node_model(roots@[s as int], 16),
                        16,
                        x as int,
                        y as int,
                        z as int,
                    ).as_int() < pal@.len());
                }
                let idx = t.to_usize();
                let code = pal.resolve(idx as u16);
                match Block::from_code(code) {
                    Some(b) => b,
                    None => {
                        proof {
                            assert(false);
                        }
                        Block::Air
                    },
                }
            },
            Nodes::Large(roots, pal) => {
                let t = roots[s].get(pos);
                proof {
                    assert(shape_at(
                        node_model(roots@[s as int], 16),
                        16,
                        x as int,
                        y as int,
                        z as int,
                    ).as_int() < pal@.len());
                }
                let idx = t.to_usize();
                let code = pal.resolve(idx as u16);
                match Block::from_code(code) {
                    Some(b) => b,
                    None => {
                        proof {
                            assert(false);
                        }
                        Block::Air
                    },
                }
            },
        }
    }
}

/// Whether a built column is exactly the one its input determines: the
/// first-occurrence palette, the width its size calls for, and each root the
/// canonical octree of its index-form section. Two builds of equal inputs
/// therefore agree completely.
pub open spec fn column_built_from(c: ChunkData, sv: Seq<Seq<Block>>) -> bool {
    &&& c.palette_seq() == col_palette(sv)
    &&& (c.is_small() <==> col_palette(sv).len() <= 255)
    &&& match c.nodes {
        Nodes::Small(r, _) => r@.len() == 24 && (forall|s: int|
            0 <= s < 24 ==> node_model(#[trigger] r@[s], 16) == build_model(
                indexed_sec::<u8>(sv[s], col_palette(sv)),
                0,
                0,
                0,
                16,
            )),
        Nodes::Large(r, _) => r@.len() == 24 && (forall|s: int|
            0 <= s < 24 ==> node_model(#[trigger] r@[s], 16) == build_model(
                indexed_sec::<u16>(sv[s], col_palette(sv)),
                0,
                0,
                0,
                16,
            )),
    }
}

/// Two columns built from the same input agree completely: same index width,
/// same palette assignment, and the same stored index at every position.
pub proof fn lemma_build_deterministic(a: ChunkData, b: ChunkData, sv: Seq<Seq<Block>>)
    requires
        column_built_from(a, sv),
        column_built_from(b, sv),
    ensures
        a.is_small() == b.is_small(),
        a.palette_seq() == b.palette_seq(),
        forall|s: int, x: int, y: int, z: int|
            0 <= s < 24 && 0 <= x < 16 && 0 <= y < 16 && 0 <= z < 16 ==> #[trigger] a.index_at(
                s,
                x,
                y,
                z,
            ) == b.index_at(s, x, y, z),
{
    assert forall|s: int, x: int, y: int, z: int|
        0 <= s < 24 && 0 <= x < 16 && 0 <= y < 16 && 0 <= z < 16 implies #[trigger] a.index_at(
        s,
        x,
        y,
        z,
    ) == b.index_at(s, x, y, z) by {
        match (a.nodes, b.nodes) {
            (Nodes::Small(ra, _), Nodes::Small(rb, _)) => {
                assert(node_model(ra@[s], 16) == node_model(rb@[s], 16));
            },
            (Nodes::Large(ra, _), Nodes::Large(rb, _)) => {
                assert(node_model(ra@[s], 16) == node_model(rb@[s], 16));
            },
            _ => {
                assert(false);
            },
        }
    }
}

/// Whether section `s`'s root is a single uniform leaf at full edge.
pub open spec fn root_is_leaf(c: ChunkData, s: int) -> bool {
    match c.nodes {
        Nodes::Small(r, _) => node_model(r@[s], 16) is Block,
        Nodes::Large(r, _) => node_model(r@[s], 16) is Block,
    }
}

/// Looking a built column up at any valid position gives back the voxel its
/// input held there.
pub proof fn lemma_column_roundtrip(
    c: ChunkData,
    sv: Seq<Seq<Block>>,
    s: int,
    x: int,
    y: int,
    z: int,
)
    requires
        c.wf(),
        column_built_from(c, sv),
        col_shape_ok(sv),
        0 <= s < 24,
        0 <= x < 16,
        0 <= y < 16,
        0 <= z < 16,
    ensures
        c.voxel_at(s, x, y, z) == sv[s][x + z * 16 + y * 256],
{
    let pal = col_palette(sv);
    let o = x + z * 16 + y * 256;
    let b = sv[s][o];
    let code = b.code_spec();
    let cc = col_codes(sv);
    lemma_flat_index(s, o);
    assert(cc[s * 4096 + o] == code);
    assert(cc.contains(code));
    lemma_first_occ_contains(cc, code);
    lemma_first_index_of_in_range(pal, code);
    let fio = first_index_of(pal, code);
    match c.nodes {
        Nodes::Small(r, p) => {
            let ts = indexed_sec::<u8>(sv[s], pal);
            lemma_build_model_at::<u8>(ts, 0, 0, 0, 16, x, y, z);
            assert(sec_at(ts, x, y, z) == ts[o]);
            assert(ts[o] == u8::from_int(fio));
            u8::lemma_from_int(fio);
            assert(c.index_at(s, x, y, z) == fio);
        },
        Nodes::Large(r, p) => {
            let ts = indexed_sec::<u16>(sv[s], pal);
            lemma_build_model_at::<u16>(ts, 0, 0, 0, 16, x, y, z);
            assert(sec_at(ts, x, y, z) == ts[o]);
            assert(ts[o] == u16::from_int(fio));
            u16::lemma_from_int(fio);
            assert(c.index_at(s, x, y, z) == fio);
        },
    }
    assert(pal[fio] == code);
    Block::lemma_code_round_trip(b);
}

/// A column whose voxels all hold one voxel type builds, in every section,
/// to a single uniform leaf at full edge: maximal compression.
pub proof fn lemma_uniform_column(c: ChunkData, sv: Seq<Seq<Block>>, b: Block, s: int)
    requires
        c.wf(),
        column_built_from(c, sv),
        col_shape_ok(sv),
        forall|t: int, q: int| 0 <= t < 24 && 0 <= q < 4096 ==> #[trigger] sv[t][q] == b,
        0 <= s < 24,
    ensures
        root_is_leaf(c, s),
{
    let pal = col_palette(sv);
    match c.nodes {
        Nodes::Small(r, _) => {
            let ts = indexed_sec::<u8>(sv[s], pal);
            assert forall|i: int, j: int, k: int|
                0 <= i < 0 + 16 && 0 <= j < 0 + 16 && 0 <= k < 0 + 16 implies #[trigger] sec_at(
                ts,
                i,
                j,
                k,
            ) == sec_at(ts, 0, 0, 0) by {
                let o = i + k * 16 + j * 256;
                assert(sv[s][o] == b);
                assert(sv[s][0] == b);
                assert(sec_at(ts, i, j, k) == ts[o]);
            }
            assert(region_uniform(ts, 0, 0, 0, 16));
            lemma_uniform_region_leaf::<u8>(ts, 0, 0, 0, 16);
        },
        Nodes::Large(r, _) => {
            let ts = indexed_sec::<u16>(sv[s], pal);
            assert forall|i: int, j: int, k: int|
                0 <= i < 0 + 16 && 0 <= j < 0 + 16 && 0 <= k < 0 + 16 implies #[trigger] sec_at(
                ts,
                i,
                j,
                k,
            ) == sec_at(ts, 0, 0, 0) by {
                let o = i + k * 16 + j * 256;
                assert(sv[s][o] == b);
                assert(sv[s][0] == b);
                assert(sec_at(ts, i, j, k) == ts[o]);
            }
            assert(region_uniform(ts, 0, 0, 0, 16));
            lemma_uniform_region_leaf::<u16>(ts, 0, 0, 0, 16);
        },
    }
}

/// Every index an index-form section's canonical octree stores lies inside
/// the palette, and the octree is well formed.
proof fn lemma_indexed_built<T: PaletteIndex>(sv: Seq<Seq<Block>>, pal: Seq<u16>, s: int)
    requires
        col_shape_ok(sv),
        pal == col_palette(sv),
        pal.len() <= T::max_spec() + 1,
        0 <= s < 24,
    ensures
        shape_wf(build_model(indexed_sec::<T>(sv[s], pal), 0, 0, 0, 16), 16),
        shape_bounded(
            build_model(indexed_sec::<T>(sv[s], pal), 0, 0, 0, 16),
            16,
            pal.len() as int,
        ),
{
    let ts = indexed_sec::<T>(sv[s], pal);
    let m = build_model(ts, 0, 0, 0, 16);
    lemma_build_model_at::<T>(ts, 0, 0, 0, 16, 0, 0, 0);
    assert forall|x: int, y: int, z: int|
        0 <= x < 16 && 0 <= y < 16 && 0 <= z < 16 implies (#[trigger] shape_at(
        m,
        16,
        x,
        y,
        z,
    )).as_int() < pal.len() as int by {
        lemma_build_model_at::<T>(ts, 0, 0, 0, 16, x, y, z);
        let o = x + z * 16 + y * 256;
        let code = sv[s][o].code_spec();
        let cc = col_codes(sv);
        lemma_flat_index(s, o);
        assert(cc[s * 4096 + o] == code);
        assert(cc.contains(code));
        lemma_first_occ_contains(cc, code);
        lemma_first_index_of_in_range(pal, code);
        T::lemma_from_int(first_index_of(pal, code));
        assert(sec_at(ts, x, y, z) == ts[o]);
    }
}

/// Whether the input has exactly 24 sections of exactly 4096 voxels.
fn shape_check(sections: &Vec<Vec<Block>>) -> (r: bool)
    ensures
        r == col_shape_ok(sections_view(*sections)),
{
    if sections.len() != SECTION_COUNT {
        return false;
    }
    let mut s: usize = 0;
    while s < SECTION_COUNT
        invariant
            sections@.len() == 24,
            s <= 24,
            forall|t: int| 0 <= t < s ==> (#[trigger] sections_view(*sections)[t]).len() == 4096,
        decreases 24 - s,
    {
        if sections[s].len() != SECTION_VOLUME {
            proof {
                assert(sections_view(*sections)[s as int].len() != 4096);
            }
            return false;
        }
        proof {
            assert(sections_view(*sections)[s as int].len() == 4096);
        }
        s += 1;
    }
    true
}

/// The codes of all the column's voxels, in scan order.
fn flatten_codes(sections: &Vec<Vec<Block>>) -> (r: Vec<u16>)
    requires
        col_shape_ok(sections_view(*sections)),
    ensures
        r@ == col_codes(sections_view(*sections)),
{
    let mut flat: Vec<u16> = Vec::new();
    let mut s: usize = 0;
    while s < SECTION_COUNT
        invariant
            col_shape_ok(sections_view(*sections)),
            s <= 24,
            flat@.len() == s * 4096,
            forall|p: int|
                0 <= p < s * 4096 ==> flat@[p] == #[trigger] col_codes(sections_view(*sections))[p],
        decreases 24 - s,
    {
        let mut q: usize = 0;
        while q < SECTION_VOLUME
            invariant
                col_shape_ok(sections_view(*sections)),
                s < 24,
                q <= 4096,
                flat@.len() == s * 4096 + q,
                forall|p: int|
                    0 <= p < s * 4096 + q ==> flat@[p] == #[trigger] col_codes(
                        sections_view(*sections),
                    )[p],
            decreases 4096 - q,
        {
            proof {
                assert(sections_view(*sections)[s as int].len() == 4096);
                assert(sections@[s as int]@.len() == 4096);
            }
            let code = sections[s][q].code();
            flat.push(code);
            proof {
                lemma_flat_index(s as int, q as int);
                assert(col_codes(sections_view(*sections))[s * 4096 + q] == sections_view(
                    *sections,
                )[s as int][q as int].code_spec());
            }
            q += 1;
        }
        s += 1;
    }
    proof {
        assert(flat@ =~= col_codes(sections_view(*sections)));
    }
    flat
}

/// Rewrites each section to palette indices and builds its octree root.
fn convert<T: PaletteIndex>(sections: &Vec<Vec<Block>>, pal: &Palette) -> (r: Vec<Node<T>>)
    requires
        pal.wf(),
        col_shape_ok(sections_view(*sections)),
        pal@ == col_palette(sections_view(*sections)),
        pal@.len() <= T::max_spec() + 1,
    ensures
        r@.len() == 24,
        forall|s: int|
            0 <= s < 24 ==> node_model(#[trigger] r@[s], 16) == build_model(
                indexed_sec::<T>(sections_view(*sections)[s], pal@),
                0,
                0,
                0,
                16,
            ),
{
    let mut roots: Vec<Node<T>> = Vec::new();
    let mut s: usize = 0;
    while s < SECTION_COUNT
        invariant
            pal.wf(),
            col_shape_ok(sections_view(*sections)),
            pal@ == col_palette(sections_view(*sections)),
            pal@.len() <= T::max_spec() + 1,
            s <= 24,
            roots@.len() == s,
            forall|t: int|
                0 <= t < s ==> node_model(#[trigger] roots@[t], 16) == build_model(
                    indexed_sec::<T>(sections_view(*sections)[t], pal@),
                    0,
                    0,
                    0,
                    16,
                ),
        decreases 24 - s,
    {
        let mut tsec: Vec<T> = Vec::new();
        let mut q: usize = 0;
        while q < SECTION_VOLUME
            invariant
                pal.wf(),
                col_shape_ok(sections_view(*sections)),
                pal@ == col_palette(sections_view(*sections)),
                pal@.len() <= T::max_spec() + 1,
                s < 24,
                q <= 4096,
                tsec@.len() == q,
                forall|p: int|
                    0 <= p < q ==> tsec@[p] == #[trigger] indexed_sec::<T>(
                        sections_view(*sections)[s as int],
                        pal@,
                    )[p],
            decreases 4096 - q,
        {
            proof {
                assert(sections_view(*sections)[s as int].len() == 4096);
                assert(sections@[s as int]@.len() == 4096);
            }
            let code = sections[s][q].code();
            proof {
                let sv = sections_view(*sections);
                let cc = col_codes(sv);
                lemma_flat_index(s as int, q as int);
                assert(cc[s * 4096 + q] == code);
                assert(cc.contains(code));
                lemma_first_occ_contains(cc, code);
            }
            let idx = match pal.index_of(code) {
                Some(i) => i,
                None => {
                    proof {
                        assert(false);
                    }
                    0
                },
            };
            proof {
                lemma_first_index_of_unique(pal@, code, idx as int);
            }
            let t = T::from_usize(idx as usize);
            tsec.push(t);
            q += 1;
        }
        proof {
            assert(tsec@ =~= indexed_sec::<T>(sections_view(*sections)[s as int], pal@));
        }
        let root = Node::<T>::new(tsec);
        roots.push(root);
        s += 1;
    }
    roots
}

/// Builds the compressed column of 24 sections: scans all voxel types into a
/// first-occurrence palette, chooses the index width, rewrites each
/// section to palette indices, and builds each section's octree.
///
/// Success is owed whenever the shape is right and the distinct voxel types
/// fit the widest index; the result is pinned completely by the input, so
/// two builds of equal inputs yield structurally identical columns, and
/// every lookup on the result gives back the input's voxel.
pub fn build_column(sections: &Vec<Vec<Block>>) -> (r: Result<ChunkData, ChunkError>)
    ensures
        match r {
            Ok(c) => {
                &&& col_shape_ok(sections_view(*sections))
                &&& c.wf()
                &&& column_built_from(c, sections_view(*sections))
                &&& forall|s: int, x: int, y: int, z: int|
                    0 <= s < 24 && 0 <= x < 16 && 0 <= y < 16 && 0 <= z < 16
                        ==> #[trigger] c.voxel_at(s, x, y, z) == sections_view(
                        *sections,
                    )[s][x + z * 16 + y * 256]
            },
            Err(e) => {
                &&& (!col_shape_ok(sections_view(*sections)) || col_palette(
                    sections_view(*sections),
                ).len() > PALETTE_CAPACITY)
                &&& (e == ChunkError::ShapeMismatch <==> !col_shape_ok(
                    sections_view(*sections),
                ))
            },
        },
{
    let ghost sv = sections_view(*sections);
    if !shape_check(sections) {
        return Err(ChunkError::ShapeMismatch);
    }
    let flat = flatten_codes(sections);
    let pw = match Palette::build(&flat) {
        Ok(pw) => pw,
        Err(_) => {
            return Err(ChunkError::PaletteOverflow);
        },
    };
    let (pal, width) = pw;
    proof {
        assert forall|i: int| 0 <= i < pal@.len() implies Block::from_code_spec(
            #[trigger] pal@[i],
        ) is Some by {
            let cc = col_codes(sv);
            lemma_first_occ_contains(cc, pal@[i]);
            assert(pal@.contains(pal@[i]));
            assert(cc.contains(pal@[i]));
            let p = choose|p: int| 0 <= p < cc.len() && cc[p] == pal@[i];
            assert(0 <= p / 4096 < 24 && 0 <= p % 4096 < 4096) by (nonlinear_arith)
                requires
                    0 <= p < 24 * 4096,
            ;
            Block::lemma_code_round_trip(sv[p / 4096][p % 4096]);
        }
    }
    match width {
        IndexWidth::Narrow => {
            let roots = convert::<u8>(sections, &pal);
            let c = ChunkData { nodes: Nodes::Small(roots, pal) };
            proof {
                assert forall|s: int| 0 <= s < 24 implies shape_wf(
                    node_model(#[trigger] c.nodes->Small_0@[s], 16),
                    16,
                ) && shape_bounded(
                    node_model(c.nodes->Small_0@[s], 16),
                    16,
                    c.palette_seq().len() as int,
                ) by {
                    lemma_indexed_built::<u8>(sv, c.palette_seq(), s);
                }
                assert(c.wf());
                assert forall|s: int, x: int, y: int, z: int|
                    0 <= s < 24 && 0 <= x < 16 && 0 <= y < 16 && 0 <= z < 16
                        implies #[trigger] c.voxel_at(s, x, y, z) == sv[s][x + z * 16 + y
                    * 256] by {
                    lemma_column_roundtrip(c, sv, s, x, y, z);
                }
            }
            Ok(c)
        },
        IndexWidth::Wide => {
            let roots = convert::<u16>(sections, &pal);
            let c = ChunkData { nodes: Nodes::Large(roots, pal) };
            proof {
                assert forall|s: int| 0 <= s < 24 implies shape_wf(
                    node_model(#[trigger] c.nodes->Large_0@[s], 16),
                    16,
                ) && shape_bounded(
                    node_model(c.nodes->Large_0@[s], 16),
                    16,
                    c.palette_seq().len() as int,
                ) by {
                    lemma_indexed_built::<u16>(sv, c.palette_seq(), s);
                }
                assert(c.wf());
                assert forall|s: int, x: int, y: int, z: int|
                    0 <= s < 24 && 0 <= x < 16 && 0 <= y < 16 && 0 <= z < 16
                        implies #[trigger] c.voxel_at(s, x, y, z) == sv[s][x + z * 16 + y
                    * 256] by {
                    lemma_column_roundtrip(c, sv, s, x, y, z);
                }
            }
            Ok(c)
        },
    }
}

} // verus!
