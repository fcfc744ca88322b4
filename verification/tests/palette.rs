use voxeltree::error::ChunkError;
use voxeltree::palette::{IndexWidth, Palette};

#[test]
fn first_occurrence_order() {
    let all: Vec<u16> = vec![7, 7, 3, 7, 9, 3];
    let (pal, width) = Palette::build(&all).unwrap();
    assert_eq!(pal.codes(), &vec![7u16, 3, 9]);
    assert_eq!(pal.len(), 3);
    assert_eq!(width, IndexWidth::Narrow);
}

#[test]
fn resolve_and_index_of() {
    let all: Vec<u16> = vec![20, 10, 10, 30];
    let (pal, _) = Palette::build(&all).unwrap();
    assert_eq!(pal.resolve(0), 20);
    assert_eq!(pal.resolve(1), 10);
    assert_eq!(pal.resolve(2), 30);
    assert_eq!(pal.index_of(20), Some(0));
    assert_eq!(pal.index_of(10), Some(1));
    assert_eq!(pal.index_of(30), Some(2));
    assert_eq!(pal.index_of(99), None);
}

#[test]
fn empty_input_gives_empty_palette() {
    let all: Vec<u16> = Vec::new();
    let (pal, width) = Palette::build(&all).unwrap();
    assert_eq!(pal.len(), 0);
    assert_eq!(width, IndexWidth::Narrow);
}

#[test]
fn width_boundary_255_is_narrow() {
    let all: Vec<u16> = (0..255).collect();
    let (pal, width) = Palette::build(&all).unwrap();
    assert_eq!(pal.len(), 255);
    assert_eq!(width, IndexWidth::Narrow);
}

#[test]
fn width_boundary_256_is_wide() {
    let all: Vec<u16> = (0..256).collect();
    let (pal, width) = Palette::build(&all).unwrap();
    assert_eq!(pal.len(), 256);
    assert_eq!(width, IndexWidth::Wide);
}

#[test]
fn palette_build_is_deterministic() {
    let all: Vec<u16> = (0..1024u16).map(|i| (i * 37) % 300).collect();
    let (a, wa) = Palette::build(&all).unwrap();
    let (b, wb) = Palette::build(&all).unwrap();
    assert_eq!(a.codes(), b.codes());
    assert_eq!(wa, wb);
}

#[test]
fn overflow_error_exists() {
    // the overflow variant is part of the build contract even though 16-bit
    // codes can never exceed the capacity
    assert_ne!(ChunkError::PaletteOverflow, ChunkError::ShapeMismatch);
}
