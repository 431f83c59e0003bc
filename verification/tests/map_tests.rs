use tilemesh::errors::GameError;
use tilemesh::map::TileMap;
use tilemesh::tile::Tile;

/// Opening a 2x2 map with exactly 4 gids succeeds.
#[test]
fn open_accepts_matching_dimensions() {
    let map = TileMap::open(vec![9, 1, 5, 18], 2, 2).unwrap();
    assert_eq!(map.width(), 2);
    assert_eq!(map.height(), 2);
}

/// Opening a 2x2 map with 3 gids fails with the invalid-map error.
#[test]
fn open_rejects_mismatched_dimensions() {
    let err = TileMap::open(vec![9, 1, 5], 2, 2).unwrap_err();
    assert_eq!(err, GameError::InvalidMap);
    assert_eq!(err.description(), "invalid map dimensions");
}

/// The grid is row-major: `get_tile(x, y)` reads entry `y * width + x`.
#[test]
fn get_tile_is_row_major() {
    let map = TileMap::open(vec![9, 1, 5, 18, 35, 13], 3, 2).unwrap();
    assert_eq!(map.get_tile(0, 0), Tile::Ground);
    assert_eq!(map.get_tile(1, 0), Tile::Oob);
    assert_eq!(map.get_tile(2, 0), Tile::Water);
    assert_eq!(map.get_tile(0, 1), Tile::Wall3);
    assert_eq!(map.get_tile(1, 1), Tile::Box5);
    assert_eq!(map.get_tile(2, 1), Tile::Player1Spawn);
}

/// A gid outside the enumeration decodes to the out-of-bounds tile rather
/// than aliasing an existing one.
#[test]
fn unknown_gid_becomes_oob() {
    let map = TileMap::open(vec![7], 1, 1).unwrap();
    assert_eq!(map.get_tile(0, 0), Tile::Oob);
}

/// The camera placement is a pure function of the dimensions: two calls on
/// equally sized maps agree, and the values are the derived constants.
#[test]
fn camera_is_deterministic() {
    let a = TileMap::open(vec![9, 9, 9, 9], 2, 2).unwrap();
    let b = TileMap::open(vec![18, 35, 1, 5], 2, 2).unwrap();
    let va = a.get_camera_view();
    let vb = b.get_camera_view();
    assert_eq!(va, vb);
    assert_eq!(va, a.get_camera_view());
}

/// For a 2x2 map at tile size 1, the eye sits at (0.5, 1.0, -1.5) in world
/// units and looks at (0.5, 0.0, 0.5), up along the world z axis. The
/// placement is stored in half units.
#[test]
fn camera_values_for_2x2() {
    let map = TileMap::open(vec![9, 9, 9, 9], 2, 2).unwrap();
    let v = map.get_camera_view();
    assert_eq!((v.eye_x, v.eye_y, v.eye_z), (1, 2, -3));
    assert_eq!((v.target_x, v.target_y, v.target_z), (1, 0, 1));
    assert_eq!((v.up_x, v.up_y, v.up_z), (0, 0, 1));
    assert_eq!(
        (v.eye_x as f32 / 2.0, v.eye_y as f32 / 2.0, v.eye_z as f32 / 2.0),
        (0.5, 1.0, -1.5)
    );
}

/// Face counting: ground and spawn tiles count one face, obstacles
/// `4 * height + 1`, fluids and holes none.
#[test]
fn face_count_adds_up() {
    let map = TileMap::open(vec![9, 5, 18, 13], 2, 2).unwrap();
    // ground (1) + water (0) + wall of height 3 (13) + player spawn (1)
    assert_eq!(map.face_count(), 15);
}
