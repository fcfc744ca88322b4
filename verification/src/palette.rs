//! The column-wide palette: a bidirectional mapping between compact indices
//! and the 16-bit voxel-type codes observed in a column, in first-occurrence
//! order, together with the choice of index width.

use vstd::prelude::*;

use crate::error::ChunkError;
use crate::extmap::{bimap_get_by_left, bimap_get_by_right, bimap_insert, bimap_new, bimap_pairs};

verus! {

/// The width of the palette indices stored in a column's octrees.
#[derive(Copy, Clone, PartialEq, Eq, Structural, Debug)]
pub enum IndexWidth {
    /// Indices fit in 8 bits: at most 255 distinct voxel types.
    Narrow,
    /// Indices need 16 bits: more than 255 distinct voxel types.
    Wide,
}

/// The largest number of distinct voxel types a palette can address: one more
/// than the largest 16-bit index.
pub const PALETTE_CAPACITY: usize = 0x10000;

/// The values of `all`, each once, in the order of their first occurrence.
pub open spec fn first_occ(all: Seq<u16>) -> Seq<u16>
    decreases all.len(),
{
    if all.len() == 0 {
        Seq::empty()
    } else {
        let p = first_occ(all.drop_last());
        if p.contains(all.last()) {
            p
        } else {
            p.push(all.last())
        }
    }
}

/// A first-occurrence sequence is never longer than its source, so a build
/// over few enough codes cannot overflow the palette.
pub proof fn lemma_first_occ_len(all: Seq<u16>)
    ensures
        first_occ(all).len() <= all.len(),
    decreases all.len(),
{
    if all.len() > 0 {
        lemma_first_occ_len(all.drop_last());
    }
}

/// The position of the first occurrence of `c` in `codes`.
pub open spec fn first_index_of(codes: Seq<u16>, c: u16) -> int
    decreases codes.len(),
{
    if codes.len() == 0 {
        0
    } else if codes[0] == c {
        0
    } else {
        1 + first_index_of(codes.drop_first(), c)
    }
}

/// A first-occurrence sequence never repeats a value.
pub proof fn lemma_first_occ_distinct(all: Seq<u16>)
    ensures
        forall|i: int, j: int|
            0 <= i < j < first_occ(all).len() ==> first_occ(all)[i] != first_occ(all)[j],
    decreases all.len(),
{
    if all.len() > 0 {
        lemma_first_occ_distinct(all.drop_last());
        let p = first_occ(all.drop_last());
        if !p.contains(all.last()) {
            assert forall|i: int, j: int|
                0 <= i < j < first_occ(all).len() implies first_occ(all)[i] != first_occ(all)[j] by {
                if j < p.len() {
                } else {
                    assert(first_occ(all)[j] == all.last());
                    assert(p[i] == first_occ(all)[i]);
                    assert(!p.contains(all.last()));
                }
            }
        }
    }
}

/// A first-occurrence sequence holds exactly the values of its source.
pub proof fn lemma_first_occ_contains(all: Seq<u16>, v: u16)
    ensures
        first_occ(all).contains(v) <==> all.contains(v),
    decreases all.len(),
{
    if all.len() > 0 {
        lemma_first_occ_contains(all.drop_last(), v);
        let p = first_occ(all.drop_last());
        let f = first_occ(all);
        if all.contains(v) {
            let w = choose|i: int| 0 <= i < all.len() && all[i] == v;
            if w < all.len() - 1 {
                assert(all.drop_last()[w] == v);
                assert(all.drop_last().contains(v));
                let q = choose|i: int| 0 <= i < p.len() && p[i] == v;
                assert(f[q] == v);
                assert(f.contains(v));
            } else {
                assert(all.last() == v);
                if p.contains(all.last()) {
                    let q = choose|i: int| 0 <= i < p.len() && p[i] == all.last();
                    assert(f[q] == v);
                    assert(f.contains(v));
                } else {
                    assert(f == p.push(all.last()));
                    assert(f[p.len() as int] == v);
                    assert(f.contains(v));
                }
            }
        } else {
            assert(!all.drop_last().contains(v)) by {
                if all.drop_last().contains(v) {
                    let w = choose|i: int| 0 <= i < all.len() - 1 && all.drop_last()[i] == v;
                    assert(all[w] == v);
                    assert(all.contains(v));
                }
            }
            if f.contains(v) {
                let q = choose|i: int| 0 <= i < f.len() && f[i] == v;
                if q < p.len() {
                    assert(p[q] == f[q]);
                    assert(p.contains(v));
                } else {
                    assert(f == p.push(all.last()));
                    assert(all.last() == v);
                    assert(all[all.len() - 1] == v);
                    assert(all.contains(v));
                }
            }
        }
    }
}

/// The first occurrence of a value a sequence holds lies inside the sequence
/// and holds that value.
pub proof fn lemma_first_index_of_in_range(codes: Seq<u16>, c: u16)
    requires
        codes.contains(c),
    ensures
        0 <= first_index_of(codes, c) < codes.len(),
        codes[first_index_of(codes, c)] == c,
    decreases codes.len(),
{
    if codes[0] != c {
        assert(codes.drop_first().contains(c)) by {
            let w = choose|i: int| 0 <= i < codes.len() && codes[i] == c;
            assert(codes.drop_first()[w - 1] == c);
        }
        lemma_first_index_of_in_range(codes.drop_first(), c);
    }
}

/// In a sequence without repeats, any position holding a value is the first
/// occurrence of that value.
pub proof fn lemma_first_index_of_unique(codes: Seq<u16>, c: u16, i: int)
    requires
        forall|p: int, q: int| 0 <= p < q < codes.len() ==> codes[p] != codes[q],
        0 <= i < codes.len(),
        codes[i] == c,
    ensures
        first_index_of(codes, c) == i,
    decreases codes.len(),
{
    if codes[0] == c {
        assert(i == 0);
    } else {
        assert(codes.drop_first()[i - 1] == c);
        assert(forall|p: int, q: int|
            0 <= p < q < codes.drop_first().len()
                ==> codes.drop_first()[p] != codes.drop_first()[q]);
        lemma_first_index_of_unique(codes.drop_first(), c, i - 1);
    }
}

/// Column-wide mapping between palette index and voxel-type code.
///
/// The codes stand in first-occurrence order of the scan that built the
/// palette; the bidirectional map pairs index `i` with code `codes[i]`.
pub struct Palette {
    pub map: bimap::BiBTreeMap<u16, u16>,
    pub codes: Vec<u16>,
}

impl View for Palette {
    type V = Seq<u16>;

    open spec fn view(&self) -> Seq<u16> {
        self.codes@
    }
}

impl Palette {
    /// The palette's internal consistency: no repeated code, every index below
    /// the count paired with its code, and a count the widest index can
    /// address.
    pub open spec fn wf(&self) -> bool {
        &&& self.codes@.len() <= PALETTE_CAPACITY
        &&& forall|i: int, j: int|
            0 <= i < j < self.codes@.len() ==> self.codes@[i] != self.codes@[j]
        &&& bimap_pairs(self.map) == Map::<u16, u16>::new(
            |k: u16| (k as int) < self.codes@.len(),
            |k: u16| self.codes@[k as int],
        )
    }

    /// The number of distinct codes the palette holds.
    pub fn len(&self) -> (r: usize)
        ensures
            r == self@.len(),
    {
        self.codes.len()
    }

    /// The codes the palette holds, in index order.
    pub fn codes(&self) -> (r: &Vec<u16>)
        ensures
            r@ == self@,
    {
        &self.codes
    }

    /// Builds the palette of a column from the codes of all its voxels, in
    /// scan order, together with the index width its size calls for: narrow
    /// exactly when at most 255 distinct codes occur.
    ///
    /// Every input yields the first-occurrence palette of `all`; the build is
    /// refused only when more distinct codes occur than the widest index can
    /// address.
    pub fn build(all: &Vec<u16>) -> (r: Result<(Palette, IndexWidth), ChunkError>)
        ensures
            match r {
                Ok(pw) => {
                    &&& pw.0.wf()
                    &&& pw.0@ == first_occ(all@)
                    &&& first_occ(all@).len() <= PALETTE_CAPACITY
                    &&& (pw.1 == IndexWidth::Narrow <==> first_occ(all@).len() <= 255)
                },
                Err(e) => {
                    &&& e == ChunkError::PaletteOverflow
                    &&& first_occ(all@).len() > PALETTE_CAPACITY
                },
            },
    {
        let mut codes: Vec<u16> = Vec::new();
        let mut p: usize = 0;
        while p < all.len()
            invariant
                p <= all@.len(),
                codes@ == first_occ(all@.take(p as int)),
            decreases all@.len() - p,
        {
            let c = all[p];
            proof {
                assert(all@.take(p + 1).drop_last() =~= all@.take(p as int));
                assert(all@.take(p + 1).last() == c);
            }
            if !vec_contains(&codes, c) {
                codes.push(c);
            }
            p += 1;
        }
        proof {
            assert(all@.take(all@.len() as int) =~= all@);
            lemma_first_occ_distinct(all@);
        }
        if codes.len() > PALETTE_CAPACITY {
            return Err(ChunkError::PaletteOverflow);
        }
        let width = if codes.len() > 255 {
            IndexWidth::Wide
        } else {
            IndexWidth::Narrow
        };
        let mut map = bimap_new();
        let mut i: usize = 0;
        proof {
            assert(bimap_pairs(map) =~= Map::<u16, u16>::new(
                |k: u16| (k as int) < 0,
                |k: u16| codes@[k as int],
            ));
        }
        while i < codes.len()
            invariant
                i <= codes@.len(),
                codes@.len() <= PALETTE_CAPACITY,
                forall|p: int, q: int| 0 <= p < q < codes@.len() ==> codes@[p] != codes@[q],
                bimap_pairs(map) == Map::<u16, u16>::new(
                    |k: u16| (k as int) < i as int,
                    |k: u16| codes@[k as int],
                ),
            decreases codes@.len() - i,
        {
            let ghost before = bimap_pairs(map);
            proof {
                assert(!before.dom().contains(i as u16));
                assert forall|k: u16| before.dom().contains(k) implies before[k] != codes@[i as int] by {
                    assert(before[k] == codes@[k as int]);
                }
            }
            bimap_insert(&mut map, i as u16, codes[i]);
            proof {
                assert(bimap_pairs(map) =~= Map::<u16, u16>::new(
                    |k: u16| (k as int) < i + 1,
                    |k: u16| codes@[k as int],
                ));
            }
            i += 1;
        }
        Ok((Palette { map, codes }, width))
    }

    /// Resolves a palette index back to the voxel-type code it stands for.
    pub fn resolve(&self, idx: u16) -> (r: u16)
        requires
            self.wf(),
            (idx as int) < self@.len(),
        ensures
            r == self@[idx as int],
    {
        match bimap_get_by_left(&self.map, idx) {
            Some(c) => c,
            None => {
                proof {
                    assert(bimap_pairs(self.map).dom().contains(idx));
                    assert(false);
                }
                0
            },
        }
    }

    /// Looks up the palette index assigned to a voxel-type code: `Some`
    /// exactly when the code occurs in the palette, and then the one index
    /// whose code it is.
    pub fn index_of(&self, code: u16) -> (r: Option<u16>)
        requires
            self.wf(),
        ensures
            match r {
                Some(i) => (i as int) < self@.len() && self@[i as int] == code,
                None => !self@.contains(code),
            },
    {
        let r = bimap_get_by_right(&self.map, code);
        proof {
            if r is None && self@.contains(code) {
                let w = choose|i: int| 0 <= i < self@.len() && self@[i] == code;
                assert(bimap_pairs(self.map).dom().contains(w as u16));
                assert(bimap_pairs(self.map)[w as u16] == code);
            }
        }
        r
    }
}

/// Whether a vector holds the given value.
fn vec_contains(v: &Vec<u16>, x: u16) -> (r: bool)
    ensures
        r == v@.contains(x),
{
    let mut i: usize = 0;
    while i < v.len()
        invariant
            i <= v@.len(),
            forall|k: int| 0 <= k < i ==> v@[k] != x,
        decreases v@.len() - i,
    {
        if v[i] == x {
            return true;
        }
        i += 1;
    }
    false
}

} // verus!
