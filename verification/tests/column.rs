use voxeltree::block::Block;
use voxeltree::column::{build_column, Nodes};
use voxeltree::coord::LocalBlockPosition;
use voxeltree::error::ChunkError;
use voxeltree::node::Node;
use voxeltree::palette::IndexWidth;

fn uniform_column(b: Block) -> Vec<Vec<Block>> {
    (0..24).map(|_| vec![b; 4096]).collect()
}

#[test]
fn round_trip_lookup() {
    let blocks = [Block::Air, Block::Stone, Block::Grass, Block::Dirt, Block::Sand];
    let mut sections: Vec<Vec<Block>> = Vec::new();
    for s in 0..24usize {
        let mut sec = vec![Block::Air; 4096];
        for y in 0..16usize {
            for z in 0..16usize {
                for x in 0..16usize {
                    sec[x + z * 16 + y * 256] = blocks[(x + 2 * y + 3 * z + s) % 5];
                }
            }
        }
        sections.push(sec);
    }
    let c = build_column(&sections).unwrap();
    for s in 0..24usize {
        for y in 0..16u32 {
            for z in 0..16u32 {
                for x in 0..16u32 {
                    let expect = sections[s][(x + z * 16 + y * 256) as usize];
                    assert_eq!(c.get_voxel(s, x, y, z), expect);
                }
            }
        }
    }
}

#[test]
fn uniform_column_collapses() {
    let sections = uniform_column(Block::Stone);
    let c = build_column(&sections).unwrap();
    assert_eq!(c.width(), IndexWidth::Narrow);
    match &c.nodes {
        Nodes::Small(roots, pal) => {
            assert_eq!(pal.codes(), &vec![1u16]);
            assert_eq!(roots.len(), 24);
            for r in roots {
                assert!(matches!(r, Node::Block(0)));
            }
        }
        Nodes::Large(..) => panic!("expected 8-bit indices"),
    }
    assert_eq!(c.get_voxel(0, 0, 0, 0), Block::Stone);
    assert_eq!(c.get_voxel(23, 15, 15, 15), Block::Stone);
}

#[test]
fn build_is_deterministic() {
    let blocks = [Block::Water, Block::Sand, Block::Gravel];
    let mut sections: Vec<Vec<Block>> = Vec::new();
    for s in 0..24usize {
        let mut sec = vec![Block::Water; 4096];
        for q in 0..4096usize {
            sec[q] = blocks[(q * 7 + s) % 3];
        }
        sections.push(sec);
    }
    let a = build_column(&sections).unwrap();
    let b = build_column(&sections).unwrap();
    match (&a.nodes, &b.nodes) {
        (Nodes::Small(ra, pa), Nodes::Small(rb, pb)) => {
            assert_eq!(ra, rb);
            assert_eq!(pa.codes(), pb.codes());
        }
        _ => panic!("expected two 8-bit columns"),
    }
    assert_eq!(a.width(), b.width());
}

#[test]
fn too_few_sections_rejected() {
    let mut sections = uniform_column(Block::Stone);
    sections.pop();
    assert!(matches!(build_column(&sections), Err(ChunkError::ShapeMismatch)));
}

#[test]
fn too_many_sections_rejected() {
    let mut sections = uniform_column(Block::Stone);
    sections.push(vec![Block::Stone; 4096]);
    assert!(matches!(build_column(&sections), Err(ChunkError::ShapeMismatch)));
}

#[test]
fn empty_column_rejected() {
    let sections: Vec<Vec<Block>> = Vec::new();
    assert!(matches!(build_column(&sections), Err(ChunkError::ShapeMismatch)));
}

#[test]
fn short_section_rejected() {
    let mut sections = uniform_column(Block::Stone);
    sections[10].pop();
    assert!(matches!(build_column(&sections), Err(ChunkError::ShapeMismatch)));
}

#[test]
fn long_section_rejected() {
    let mut sections = uniform_column(Block::Stone);
    sections[10].push(Block::Stone);
    assert!(matches!(build_column(&sections), Err(ChunkError::ShapeMismatch)));
}

#[test]
fn corner_cube_structure() {
    let a = Block::Stone;
    let b = Block::Dirt;
    let mut sections = uniform_column(a);
    for y in 0..4usize {
        for z in 0..4usize {
            for x in 0..4usize {
                sections[0][x + z * 16 + y * 256] = b;
            }
        }
    }
    let c = build_column(&sections).unwrap();
    match &c.nodes {
        Nodes::Small(roots, pal) => {
            // scan order: the corner voxel comes first, so Dirt takes index 0
            assert_eq!(pal.codes(), &vec![3u16, 1u16]);
            // every other section collapses to one uniform leaf of Stone
            for r in &roots[1..] {
                assert!(matches!(r, Node::Block(1)));
            }
            // section 0: a branch whose low octant is again a branch; the
            // 4-edge corner holds one type throughout, so it collapses to a
            // uniform leaf of the Dirt index; every other child is Stone
            match &roots[0] {
                Node::Nodes(children) => {
                    assert_eq!(children.len(), 8);
                    match &children[0] {
                        Node::Nodes(inner) => {
                            assert_eq!(inner.len(), 8);
                            assert!(matches!(inner[0], Node::Block(0)));
                            for g in &inner[1..] {
                                assert!(matches!(g, Node::Block(1)));
                            }
                        }
                        _ => panic!("expected a branch in the low octant"),
                    }
                    for ch in &children[1..] {
                        assert!(matches!(ch, Node::Block(1)));
                    }
                }
                _ => panic!("expected a branch at the root"),
            }
        }
        Nodes::Large(..) => panic!("expected 8-bit indices"),
    }
    assert_eq!(c.get_voxel(0, 0, 0, 0), b);
    assert_eq!(c.get_voxel(0, 3, 3, 3), b);
    assert_eq!(c.get_voxel(0, 4, 0, 0), a);
    assert_eq!(c.get_voxel(0, 0, 4, 0), a);
    assert_eq!(c.get_voxel(0, 0, 0, 4), a);
    assert_eq!(c.get_voxel(0, 15, 15, 15), a);
    assert_eq!(c.get_voxel(1, 0, 0, 0), a);
}

#[test]
fn mixed_minimal_cube_gives_dense_leaf() {
    let mut sections = uniform_column(Block::Stone);
    for y in 0..4usize {
        for z in 0..4usize {
            for x in 0..4usize {
                sections[0][x + z * 16 + y * 256] = Block::Dirt;
            }
        }
    }
    // one voxel inside the corner cube differs, so the cube cannot collapse
    sections[0][1] = Block::Grass;
    let c = build_column(&sections).unwrap();
    match &c.nodes {
        Nodes::Small(roots, pal) => {
            // first occurrences: Dirt at offset 0, Grass at offset 1, Stone later
            assert_eq!(pal.codes(), &vec![3u16, 2, 1]);
            match &roots[0] {
                Node::Nodes(children) => match &children[0] {
                    Node::Nodes(inner) => match &inner[0] {
                        Node::Blocks(v) => {
                            assert_eq!(v.len(), 64);
                            assert_eq!(v[1], 1u8);
                            for (q, i) in v.iter().enumerate() {
                                if q != 1 {
                                    assert_eq!(*i, 0u8);
                                }
                            }
                        }
                        _ => panic!("expected a dense leaf for the mixed cube"),
                    },
                    _ => panic!("expected a branch in the low octant"),
                },
                _ => panic!("expected a branch at the root"),
            }
        }
        Nodes::Large(..) => panic!("expected 8-bit indices"),
    }
    assert_eq!(c.get_voxel(0, 1, 0, 0), Block::Grass);
    assert_eq!(c.get_voxel(0, 0, 0, 0), Block::Dirt);
    assert_eq!(c.get_voxel(0, 8, 8, 8), Block::Stone);
}

#[test]
fn octant_order_is_x_then_z_then_y() {
    let a = Block::Air;
    let mut sections = uniform_column(a);
    for y in 0..8usize {
        for z in 0..8usize {
            for x in 8..16usize {
                sections[0][x + z * 16 + y * 256] = Block::Stone;
            }
        }
    }
    for y in 0..8usize {
        for z in 8..16usize {
            for x in 0..8usize {
                sections[0][x + z * 16 + y * 256] = Block::Grass;
            }
        }
    }
    for y in 8..16usize {
        for z in 0..8usize {
            for x in 0..8usize {
                sections[0][x + z * 16 + y * 256] = Block::Dirt;
            }
        }
    }
    let c = build_column(&sections).unwrap();
    match &c.nodes {
        Nodes::Small(roots, pal) => {
            // scan order of first occurrences: Air, Stone, Grass, Dirt
            assert_eq!(pal.codes(), &vec![0u16, 1, 2, 3]);
            match &roots[0] {
                Node::Nodes(children) => {
                    // bit 0 of the octant index is x-high, bit 1 z-high, bit 2 y-high
                    assert!(matches!(children[0], Node::Block(0)));
                    assert!(matches!(children[1], Node::Block(1)));
                    assert!(matches!(children[2], Node::Block(2)));
                    assert!(matches!(children[4], Node::Block(3)));
                    for i in [3usize, 5, 6, 7] {
                        assert!(matches!(children[i], Node::Block(0)));
                    }
                }
                _ => panic!("expected a branch at the root"),
            }
        }
        Nodes::Large(..) => panic!("expected 8-bit indices"),
    }
    assert_eq!(c.get_voxel(0, 9, 0, 0), Block::Stone);
    assert_eq!(c.get_voxel(0, 0, 0, 9), Block::Grass);
    assert_eq!(c.get_voxel(0, 0, 9, 0), Block::Dirt);
    assert_eq!(c.get_voxel(0, 0, 0, 0), Block::Air);
    assert_eq!(c.get_voxel(0, 9, 9, 9), Block::Air);
}

#[test]
fn node_direct_build_and_get() {
    let mut sec: Vec<u8> = vec![5; 4096];
    sec[7 + 3 * 16 + 2 * 256] = 9;
    let n = Node::new(sec);
    assert_eq!(n.get(LocalBlockPosition::new(7, 2, 3)), 9u8);
    assert_eq!(n.get(LocalBlockPosition::new(0, 0, 0)), 5u8);
    assert_eq!(n.get_block_internal(7, 2, 3, 16), 9u8);
}
