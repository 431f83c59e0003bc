use tilemesh::map::TileMap;
use tilemesh::meshutils::{CubeMaker, Vertex};
use tilemesh::texture::{BasicTexture, Measurements};

fn atlas512() -> BasicTexture {
    BasicTexture::new(512, 512)
}

/// A 1x1 map holding a single ground tile emits exactly one face: 4 vertices
/// and 6 indices.
#[test]
fn ground_tile_emits_one_face() {
    let map = TileMap::open(vec![9], 1, 1).unwrap();
    let atlas = atlas512();
    assert_eq!(map.face_count(), 1);
    let mesh = map.create_mesh(&atlas);
    assert_eq!(mesh.get_mesh().len(), 4);
    assert_eq!(mesh.get_slice().len(), 6);
    assert_eq!(mesh.get_slice(), &vec![0, 1, 2, 0, 2, 3]);
}

/// The ground face of a 1x1 map sits on the cube of cell (0, 0): a top face
/// one half unit up, wound counter-clockwise seen from above, sampling the
/// ground cell (column 0, row 1) of the atlas.
#[test]
fn ground_tile_vertices_are_exact() {
    let map = TileMap::open(vec![9], 1, 1).unwrap();
    let atlas = atlas512();
    let mesh = map.create_mesh(&atlas);
    let v = mesh.get_mesh();
    let expect = [
        (-1, 1, -1, 64, 128),
        (-1, 1, 1, 64, 64),
        (1, 1, 1, 0, 64),
        (1, 1, -1, 0, 128),
    ];
    for (i, e) in expect.iter().enumerate() {
        assert_eq!(v[i].pos_x, e.0);
        assert_eq!(v[i].pos_y, e.1);
        assert_eq!(v[i].pos_z, e.2);
        assert_eq!(v[i].tex_u, e.3);
        assert_eq!(v[i].tex_v, e.4);
        assert_eq!((v[i].norm_x, v[i].norm_y, v[i].norm_z), (0, 1, 0));
    }
}

/// A 1x1 map holding a single wall of height 3 emits 3 levels of 4 side
/// faces plus one top face: 13 faces, 52 vertices, 78 indices.
#[test]
fn wall3_emits_thirteen_faces() {
    let map = TileMap::open(vec![18], 1, 1).unwrap();
    let atlas = atlas512();
    assert_eq!(map.face_count(), 13);
    let mesh = map.create_mesh(&atlas);
    assert_eq!(mesh.get_mesh().len(), 52);
    assert_eq!(mesh.get_slice().len(), 78);
}

/// Each face's six indices follow the fan pattern over its own four fresh
/// vertices.
#[test]
fn index_fan_pattern_advances_per_face() {
    let map = TileMap::open(vec![18], 1, 1).unwrap();
    let mesh = map.create_mesh(&atlas512());
    let idx = mesh.get_slice();
    for f in 0..13u16 {
        let b = 4 * f;
        let at = (6 * f) as usize;
        assert_eq!(&idx[at..at + 6], &[b, b + 1, b + 2, b, b + 2, b + 3]);
    }
}

/// Building twice from the same map and atlas yields byte-identical vertex
/// and index sequences.
#[test]
fn building_is_deterministic() {
    let map = TileMap::open(vec![9, 5, 18, 13, 35, 1], 3, 2).unwrap();
    let atlas = atlas512();
    let a = map.create_mesh(&atlas);
    let b = map.create_mesh(&atlas);
    assert_eq!(a.get_mesh(), b.get_mesh());
    assert_eq!(a.get_slice(), b.get_slice());
}

/// A mixed map emits the sum of its tiles' faces in row-major order.
#[test]
fn mixed_map_counts() {
    // ground (1 face) then wall of height 1 (5 faces)
    let map = TileMap::open(vec![9, 2], 2, 1).unwrap();
    let mesh = map.create_mesh(&atlas512());
    assert_eq!(map.face_count(), 6);
    assert_eq!(mesh.get_mesh().len(), 24);
    assert_eq!(mesh.get_slice().len(), 36);
}

/// Fluid and hole tiles emit nothing.
#[test]
fn fluids_emit_nothing() {
    let map = TileMap::open(vec![5, 6, 17], 3, 1).unwrap();
    let mesh = map.create_mesh(&atlas512());
    assert_eq!(map.face_count(), 0);
    assert_eq!(mesh.get_mesh().len(), 0);
    assert_eq!(mesh.get_slice().len(), 0);
}

/// The accumulator emits all six faces of a free-standing cube in order:
/// near, far, left, right, top, bottom.
#[test]
fn cube_maker_all_sides() {
    let mut maker = CubeMaker::new();
    let m = Measurements {
        fac_x: 8,
        fac_y: 8,
        off_x: 0,
        off_y: 0,
        atlas_width: 8,
        atlas_height: 8,
    };
    maker.add_all_sides((0, 0, 0), 2, &m);
    let (vertices, indexes) = maker.finish();
    assert_eq!(vertices.len(), 24);
    assert_eq!(indexes.len(), 36);
    // the first face is the near face: all four corners at z = +2
    for i in 0..4 {
        assert_eq!(vertices[i].pos_z, 2);
        assert_eq!((vertices[i].norm_x, vertices[i].norm_y, vertices[i].norm_z), (0, 0, 1));
    }
    assert_eq!(
        vertices[0],
        Vertex {
            pos_x: -2,
            pos_y: -2,
            pos_z: 2,
            tex_u: 0,
            tex_v: 8,
            norm_x: 0,
            norm_y: 0,
            norm_z: 1,
        }
    );
    // the fifth face is the top face: all four corners at y = +2
    for i in 16..20 {
        assert_eq!(vertices[i].pos_y, 2);
        assert_eq!((vertices[i].norm_x, vertices[i].norm_y, vertices[i].norm_z), (0, 1, 0));
    }
}

/// A single side emission appends four vertices and the fan pattern starting
/// at the running vertex count.
#[test]
fn side_emissions_chain() {
    let mut maker = CubeMaker::new();
    let m = Measurements {
        fac_x: 4,
        fac_y: 4,
        off_x: 8,
        off_y: 12,
        atlas_width: 32,
        atlas_height: 32,
    };
    maker.add_top_side((10, 20, 30), 1, &m);
    maker.add_left_side((10, 20, 30), 1, &m);
    let (vertices, indexes) = maker.finish();
    assert_eq!(vertices.len(), 8);
    assert_eq!(indexes, vec![0, 1, 2, 0, 2, 3, 4, 5, 6, 4, 6, 7]);
    // top face corner 0: offset (-1, +1, -1), uv corner (1, 1)
    assert_eq!(
        (vertices[0].pos_x, vertices[0].pos_y, vertices[0].pos_z),
        (9, 21, 29)
    );
    assert_eq!((vertices[0].tex_u, vertices[0].tex_v), (12, 16));
    // left face corner 0: offset (-1, -1, -1), uv corner (0, 1)
    assert_eq!(
        (vertices[4].pos_x, vertices[4].pos_y, vertices[4].pos_z),
        (9, 19, 29)
    );
    assert_eq!((vertices[4].tex_u, vertices[4].tex_v), (8, 16));
}
