use tilemesh::texture::{BasicTexture, Texture};
use tilemesh::tile::Tile;

/// A whole texture measures as itself: full scale, no offset.
#[test]
fn root_measurements() {
    let atlas = BasicTexture::new(512, 256);
    assert_eq!(atlas.width(), 512);
    assert_eq!(atlas.height(), 256);
    assert_eq!(atlas.offset_x(), 0);
    assert_eq!(atlas.offset_y(), 0);
    let m = atlas.get_measurements();
    assert_eq!((m.fac_x, m.fac_y, m.off_x, m.off_y), (512, 256, 0, 0));
    assert_eq!((m.atlas_width, m.atlas_height), (512, 256));
    assert_eq!(m.fac_x as f32 / m.atlas_width as f32, 1.0);
    assert_eq!(m.off_x as f32 / m.atlas_width as f32, 0.0);
}

/// A slice's absolute offset is the parent's offset plus the requested local
/// offset, and slicing a slice accumulates the offsets.
#[test]
fn slice_offsets_accumulate() {
    let atlas = BasicTexture::new(256, 256);
    let outer = atlas.slice(16, 32, 64, 64);
    assert_eq!((outer.width(), outer.height()), (64, 64));
    assert_eq!((outer.offset_x(), outer.offset_y()), (16, 32));
    let inner = outer.slice(8, 8, 16, 16);
    assert_eq!((inner.width(), inner.height()), (16, 16));
    assert_eq!((inner.offset_x(), inner.offset_y()), (24, 40));
    let m = inner.get_measurements();
    assert_eq!((m.atlas_width, m.atlas_height), (256, 256));
    assert_eq!((m.fac_x, m.fac_y, m.off_x, m.off_y), (16, 16, 24, 40));
}

/// In a 512x512 atlas of 8x8 cells, gid 9 (cell index 8: column 0, row 1)
/// addresses the slice at (0, 64) of size (64, 64), whose normalized
/// measurements are (0.125, 0.125, 0.0, 0.125).
#[test]
fn atlas_addressing_gid_9() {
    let atlas = BasicTexture::new(512, 512);
    let tile = Tile::from_gid(9).unwrap();
    let slice = tile.get_texture_slice(&atlas);
    assert_eq!((slice.offset_x(), slice.offset_y()), (0, 64));
    assert_eq!((slice.width(), slice.height()), (64, 64));
    let m = slice.get_measurements();
    assert_eq!(m.fac_x as f32 / m.atlas_width as f32, 0.125);
    assert_eq!(m.fac_y as f32 / m.atlas_height as f32, 0.125);
    assert_eq!(m.off_x as f32 / m.atlas_width as f32, 0.0);
    assert_eq!(m.off_y as f32 / m.atlas_height as f32, 0.125);
}

/// Gid 40 (cell index 39: column 7, row 4) addresses the rightmost cell of
/// the fifth row.
#[test]
fn atlas_addressing_gid_40() {
    let atlas = BasicTexture::new(512, 512);
    let tile = Tile::from_gid(40).unwrap();
    let slice = tile.get_texture_slice(&atlas);
    assert_eq!((slice.offset_x(), slice.offset_y()), (448, 256));
    assert_eq!((slice.width(), slice.height()), (64, 64));
}
