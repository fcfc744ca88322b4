use voxeltree::block::Block;
use voxeltree::coord::{BlockPosition, LocalBlockPosition};

#[test]
fn pack_unpack_round_trip_all() {
    for x in 0u32..16 {
        for y in 0u32..16 {
            for z in 0u32..16 {
                let p = LocalBlockPosition::new(x, y, z);
                assert_eq!(p.x(), x);
                assert_eq!(p.y(), y);
                assert_eq!(p.z(), z);
            }
        }
    }
}

#[test]
fn pack_layout() {
    let p = LocalBlockPosition::new(3, 7, 11);
    assert_eq!(p.c, (7 << 16) | (3 << 8) | 11);
}

#[test]
fn block_position_truncates_y() {
    let p = BlockPosition::new(5, 70000, 9);
    assert_eq!(p.x, 5);
    assert_eq!(p.y, 70000u32 as u16);
    assert_eq!(p.z, 9);
}

#[test]
fn local_from_block_position() {
    let p = BlockPosition::new(4, 9, 14);
    let l = LocalBlockPosition::from_position(&p);
    assert_eq!((l.x(), l.y(), l.z()), (4, 9, 14));
}

#[test]
fn block_codes_match_registry() {
    assert_eq!(Block::Air.code(), 0);
    assert_eq!(Block::Stone.code(), 1);
    assert_eq!(Block::WoodButton.code(), 143);
    assert_eq!(Block::Anvil.code(), 145);
    assert_eq!(Block::StoneSlab2.code(), 181);
    assert_eq!(Block::SpruceFenceGate.code(), 183);
    assert_eq!(Block::ConcretePowder.code(), 252);
    assert_eq!(Block::StructureBlock.code(), 255);
}

#[test]
fn block_from_code_round_trip() {
    for code in 0u16..=300 {
        match Block::from_code(code) {
            Some(b) => assert_eq!(b.code(), code),
            None => {
                // the registry's gaps and everything past its last code
                assert!(code == 144 || code == 182 || code == 253 || code == 254 || code > 255);
            }
        }
    }
}

#[test]
fn block_from_code_gaps() {
    assert_eq!(Block::from_code(144), None);
    assert_eq!(Block::from_code(182), None);
    assert_eq!(Block::from_code(253), None);
    assert_eq!(Block::from_code(254), None);
    assert_eq!(Block::from_code(255), Some(Block::StructureBlock));
    assert_eq!(Block::from_code(256), None);
    assert_eq!(Block::from_code(u16::MAX), None);
}
