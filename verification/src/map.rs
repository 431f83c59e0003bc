//! The map data model and the mesh builder. A `TileMap` owns a row-major grid of
//! `width * height` tiles; it derives a camera placement from its dimensions
//! and hands its grid to `MapMeshBuilder`, which walks the grid and emits the
//! final mesh: one top face per ground tile, and per obstacle tile a stack of
//! side faces with a top face on the topmost level.

use vstd::prelude::*;
use crate::errors::GameError;
use crate::meshutils::{
    face_indexes, face_vertices, fan_indexes, lemma_fan_indexes_append, CubeMaker, CubeSide,
    Vertex, MAX_COORD, MAX_MESH_VERTICES,
};
use crate::texture::{BasicTexture, Measurements, Texture};
use crate::tile::{cell_off_x, cell_off_y, Tile};

verus! {

/// World units per grid cell.
pub const TILE_SIZE: u16 = 1;

/// The tile a raw gid decodes to: the enumerated tile if the gid is known,
/// the out-of-bounds tile otherwise.
pub open spec fn tile_of_gid(gid: u8) -> Tile {
    match Tile::spec_from_gid(gid) {
        Some(t) => t,
        None => Tile::Oob,
    }
}

/// A camera placement: eye and target in half world units, and the world's
/// vertical axis as the up direction.
#[derive(Clone, Copy, PartialEq, Eq, Structural, Debug)]
pub struct CameraView {
    /// Eye x in half units.
    pub eye_x: i64,
    /// Eye y in half units.
    pub eye_y: i64,
    /// Eye z in half units.
    pub eye_z: i64,
    /// Target x in half units.
    pub target_x: i64,
    /// Target y in half units.
    pub target_y: i64,
    /// Target z in half units.
    pub target_z: i64,
    /// Up direction x component (a unit vector; not scaled).
    pub up_x: i64,
    /// Up direction y component.
    pub up_y: i64,
    /// Up direction z component.
    pub up_z: i64,
}

/// The camera placement derived from the grid dimensions alone: the eye sits
/// centered over the columns, raised in proportion to the grid's width, and
/// pulled one world unit toward the viewer from the far row; it looks at the
/// center of the grid's floor, with up fixed to the world's vertical axis.
pub open spec fn spec_camera_view(width: u16, height: u16) -> CameraView {
    CameraView {
        eye_x: ((width as int) * (TILE_SIZE as int) - (TILE_SIZE as int)) as i64,
        eye_y: (2 * ((width as int) * (TILE_SIZE as int) - (TILE_SIZE as int))) as i64,
        eye_z: ((height as int) * (TILE_SIZE as int) - (TILE_SIZE as int) - 4) as i64,
        target_x: ((width as int) * (TILE_SIZE as int) - (TILE_SIZE as int)) as i64,
        target_y: 0,
        target_z: ((height as int) * (TILE_SIZE as int) - (TILE_SIZE as int)) as i64,
        up_x: 0,
        up_y: 0,
        up_z: 1,
    }
}

/// A level map: its dimensions and its row-major tile grid.
#[derive(Debug)]
pub struct TileMap {
    width: u16,
    height: u16,
    tiles: Vec<Tile>,
}

impl TileMap {
    /// The map's width in tiles.
    pub closed spec fn spec_width(&self) -> u16 {
        self.width
    }

    /// The map's height in tiles.
    pub closed spec fn spec_height(&self) -> u16 {
        self.height
    }

    /// The row-major tile grid.
    pub closed spec fn spec_tiles(&self) -> Seq<Tile> {
        self.tiles@
    }

    /// The map invariant: the grid holds exactly `width * height` tiles.
    pub open spec fn wf(&self) -> bool {
        self.spec_tiles().len() == self.spec_width() as int * self.spec_height() as int
    }

    /// The tile at column `x` of row `y`.
    pub open spec fn spec_tile_at(&self, x: int, y: int) -> Tile {
        self.spec_tiles()[y * self.spec_width() as int + x]
    }

    /// Builds a map from an already-decoded gid grid. Succeeds exactly when
    /// the grid holds `width * height` gids; unknown gids decode to the
    /// out-of-bounds tile.
    pub fn open(data: Vec<u8>, width: u16, height: u16) -> (r: Result<TileMap, GameError>)
        ensures
            match r {
                Ok(m) => data@.len() == width as int * height as int && m.wf()
                    && m.spec_width() == width && m.spec_height() == height && m.spec_tiles()
                    == data@.map_values(|gid: u8| tile_of_gid(gid)),
                Err(e) => data@.len() != width as int * height as int && e
                    == GameError::InvalidMap,
            },
    {
        proof {
            assert((width as int) * (height as int) <= 65535 * 65535) by (nonlinear_arith)
                requires
                    0 <= width as int <= 65535,
                    0 <= height as int <= 65535,
            ;
        }
        if data.len() != (width as usize) * (height as usize) {
            return Err(GameError::InvalidMap);
        }
        let mut tiles: Vec<Tile> = Vec::new();
        let mut i: usize = 0;
        while i < data.len()
            invariant
                i <= data@.len(),
                tiles@ == data@.subrange(0, i as int).map_values(|gid: u8| tile_of_gid(gid)),
            decreases data@.len() - i,
        {
            let t = match Tile::from_gid(data[i]) {
                Some(t) => t,
                None => Tile::Oob,
            };
            tiles.push(t);
            proof {
                assert(data@.subrange(0, i + 1) =~= data@.subrange(0, i as int).push(data@[
                    i as int]));
                assert(data@.subrange(0, i + 1).map_values(|gid: u8| tile_of_gid(gid))
                    =~= data@.subrange(0, i as int).map_values(|gid: u8| tile_of_gid(gid)).push(
                    tile_of_gid(data@[i as int])));
            }
            i = i + 1;
        }
        proof {
            assert(data@.subrange(0, data@.len() as int) =~= data@);
        }
        Ok(TileMap { width, height, tiles })
    }

    /// The map's width in tiles.
    #[inline(always)]
    pub fn width(&self) -> (r: u16)
        ensures
            r == self.spec_width(),
    {
        self.width
    }

    /// The map's height in tiles.
    #[inline(always)]
    pub fn height(&self) -> (r: u16)
        ensures
            r == self.spec_height(),
    {
        self.height
    }

    /// The tile at column `x` of row `y`. Callers stay inside the grid; the
    /// mesh builder's iteration bounds guarantee that.
    #[inline(always)]
    pub fn get_tile(&self, x: u16, y: u16) -> (r: Tile)
        requires
            self.wf(),
            x < self.spec_width(),
            y < self.spec_height(),
        ensures
            r == self.spec_tile_at(x as int, y as int),
    {
        let n: usize = self.tiles.len();
        proof {
            assert((y as int) * (self.spec_width() as int) + (x as int) < (
            self.spec_height() as int) * (self.spec_width() as int)) by (nonlinear_arith)
                requires
                    (x as int) < (self.spec_width() as int),
                    (y as int) < (self.spec_height() as int),
                    0 <= x as int,
                    0 <= y as int,
            ;
            assert(n as int == (self.spec_height() as int) * (self.spec_width() as int))
                by (nonlinear_arith)
                requires
                    n as int == (self.spec_width() as int) * (self.spec_height() as int),
            ;
        }
        self.tiles[(y as usize) * (self.width as usize) + (x as usize)]
    }

    /// The number of faces this map's mesh will hold: one per ground tile,
    /// `4 * height + 1` per obstacle tile. Callers use it to check that the
    /// mesh fits the 16-bit index space before building.
    pub fn face_count(&self) -> (r: u64)
        requires
            self.wf(),
        ensures
            r as int == map_face_count(*self),
    {
        let wmax: u16 = self.width();
        let hmax: u16 = self.height();
        let ghost tiles: Seq<Tile> = self.spec_tiles();
        let ghost w: int = self.spec_width() as int;
        let ghost h: int = self.spec_height() as int;
        let mut cnt: u64 = 0;
        let mut y: u16 = 0;
        while y < hmax
            invariant
                y <= hmax,
                wmax as int == w,
                hmax as int == h,
                self.wf(),
                tiles == self.spec_tiles(),
                w == self.spec_width() as int,
                h == self.spec_height() as int,
                cnt as int == rows_face_count(tiles, w, y as int),
                cnt as int <= 21 * ((y as int) * w),
            decreases h - y as int,
        {
            let mut x: u16 = 0;
            while x < wmax
                invariant
                    x <= wmax,
                    y < hmax,
                    wmax as int == w,
                    hmax as int == h,
                    self.wf(),
                    tiles == self.spec_tiles(),
                    w == self.spec_width() as int,
                    h == self.spec_height() as int,
                    cnt as int == rows_face_count(tiles, w, y as int) + row_face_count(
                        tiles,
                        w,
                        y as int,
                        x as int,
                    ),
                    cnt as int <= 21 * ((y as int) * w + x as int),
                decreases w - x as int,
            {
                proof {
                    assert(0 <= (y as int) * w + (x as int) < w * h) by (nonlinear_arith)
                        requires
                            0 <= (x as int) < w,
                            0 <= (y as int) < h,
                    ;
                    assert(w * h <= 65535 * 65535) by (nonlinear_arith)
                        requires
                            0 <= w <= 65535,
                            0 <= h <= 65535,
                    ;
                }
                let tile = self.get_tile(x, y);
                let tf: u64 = if tile.is_ground() {
                    1
                } else {
                    let th = tile.height();
                    if th > 0 {
                        4 * (th as u64) + 1
                    } else {
                        0
                    }
                };
                proof {
                    assert(tf as int == tile_face_count(tiles[(y as int) * w + (x as int)]));
                    assert(row_face_count(tiles, w, y as int, x as int + 1) == row_face_count(
                        tiles,
                        w,
                        y as int,
                        x as int,
                    ) + tile_face_count(tiles[(y as int) * w + (x as int)]));
                }
                cnt = cnt + tf;
                x = x + 1;
            }
            proof {
                assert(rows_face_count(tiles, w, y as int + 1) == rows_face_count(tiles, w, y as int)
                    + row_face_count(tiles, w, y as int, w));
                assert(((y as int) + 1) * w == (y as int) * w + w) by (nonlinear_arith);
            }
            y = y + 1;
        }
        proof {
            assert(map_face_count(*self) == rows_face_count(tiles, w, h));
        }
        cnt
    }

    /// Builds this map's mesh against the atlas `texture_map` at `TILE_SIZE`
    /// world units per grid cell. The mesh must fit the 16-bit index space:
    /// four vertices per face (see `face_count`).
    pub fn create_mesh(&self, texture_map: &BasicTexture) -> (r: MapMesh)
        requires
            self.wf(),
            4 * map_face_count(*self) <= MAX_MESH_VERTICES,
        ensures
            r.spec_vertices() == map_vertices(
                *self,
                TILE_SIZE as int,
                texture_map.width,
                texture_map.height,
            ),
            r.spec_indexes() == fan_indexes(map_face_count(*self), 0),
    {
        let mut builder = MapMeshBuilder::new(texture_map, self, TILE_SIZE);
        builder.build_mesh();
        proof {
            assert(builder.spec_vertices() =~= map_vertices(
                *self,
                TILE_SIZE as int,
                texture_map.width,
                texture_map.height,
            ));
            assert(builder.spec_indexes() =~= fan_indexes(map_face_count(*self), 0));
        }
        builder.finish()
    }

    /// Derives the camera placement from the grid dimensions: a pure function
    /// of width and height.
    pub fn get_camera_view(&self) -> (r: CameraView)
        ensures
            r == spec_camera_view(self.spec_width(), self.spec_height()),
    {
        proof {
            assert((self.spec_width() as int) * (TILE_SIZE as int) <= 65535 * 65535)
                by (nonlinear_arith)
                requires
                    0 <= self.spec_width() as int <= 65535,
                    0 <= TILE_SIZE as int <= 65535,
            ;
            assert((self.spec_height() as int) * (TILE_SIZE as int) <= 65535 * 65535)
                by (nonlinear_arith)
                requires
                    0 <= self.spec_height() as int <= 65535,
                    0 <= TILE_SIZE as int <= 65535,
            ;
        }
        let left: i64 = (self.width as i64) * (TILE_SIZE as i64) - (TILE_SIZE as i64);
        let top: i64 = (self.height as i64) * (TILE_SIZE as i64) - (TILE_SIZE as i64);
        CameraView {
            eye_x: left,
            eye_y: 2 * left,
            eye_z: top - 4,
            target_x: left,
            target_y: 0,
            target_z: top,
            up_x: 0,
            up_y: 0,
            up_z: 1,
        }
    }
}

/// The atlas measurements of the 8x8 cell that `t` samples, in a root atlas
/// of `aw` by `ah` pixels: the cell extent is an eighth of the atlas, and the
/// offset is the cell's column and row times that extent.
pub open spec fn tile_cell_meas(t: Tile, aw: u16, ah: u16) -> Measurements {
    Measurements {
        fac_x: (aw as int / 8) as u16,
        fac_y: (ah as int / 8) as u16,
        off_x: cell_off_x(t.spec_gid(), aw) as u16,
        off_y: cell_off_y(t.spec_gid(), ah) as u16,
        atlas_width: aw,
        atlas_height: ah,
    }
}

/// The vertices one stack level of an obstacle tile emits: its left, right,
/// far and near faces at the cube centered on grid cell `(x, y)` at level
/// `z`, and the top face as well when this is the topmost level. Grid cell
/// `(x, y)` of a map `h` rows high maps to the world cube center
/// `(2*x*size, 2*z*size, 2*(h-y-1)*size)` in half units: row 0 renders at
/// the far edge.
pub open spec fn level_vertices(
    t: Tile,
    x: int,
    y: int,
    z: int,
    h: int,
    size: int,
    aw: u16,
    ah: u16,
    top: bool,
) -> Seq<Vertex> {
    if top {
        face_vertices(
            CubeSide::Left,
            2 * x * size,
            2 * z * size,
            2 * (h - y - 1) * size,
            size,
            tile_cell_meas(t, aw, ah),
        ) + face_vertices(
            CubeSide::Right,
            2 * x * size,
            2 * z * size,
            2 * (h - y - 1) * size,
            size,
            tile_cell_meas(t, aw, ah),
        ) + face_vertices(
            CubeSide::Far,
            2 * x * size,
            2 * z * size,
            2 * (h - y - 1) * size,
            size,
            tile_cell_meas(t, aw, ah),
        ) + face_vertices(
            CubeSide::Near,
            2 * x * size,
            2 * z * size,
            2 * (h - y - 1) * size,
            size,
            tile_cell_meas(t, aw, ah),
        ) + face_vertices(
            CubeSide::Top,
            2 * x * size,
            2 * z * size,
            2 * (h - y - 1) * size,
            size,
            tile_cell_meas(t, aw, ah),
        )
    } else {
        face_vertices(
            CubeSide::Left,
            2 * x * size,
            2 * z * size,
            2 * (h - y - 1) * size,
            size,
            tile_cell_meas(t, aw, ah),
        ) + face_vertices(
            CubeSide::Right,
            2 * x * size,
            2 * z * size,
            2 * (h - y - 1) * size,
            size,
            tile_cell_meas(t, aw, ah),
        ) + face_vertices(
            CubeSide::Far,
            2 * x * size,
            2 * z * size,
            2 * (h - y - 1) * size,
            size,
            tile_cell_meas(t, aw, ah),
        ) + face_vertices(
            CubeSide::Near,
            2 * x * size,
            2 * z * size,
            2 * (h - y - 1) * size,
            size,
            tile_cell_meas(t, aw, ah),
        )
    }
}

/// The vertices levels `1..=z` of an obstacle tile of stack height `bh`
/// emit, in emission order: level by level, the top face only on level `bh`.
pub open spec fn box_vertices(
    t: Tile,
    x: int,
    y: int,
    h: int,
    size: int,
    aw: u16,
    ah: u16,
    bh: int,
    z: int,
) -> Seq<Vertex>
    decreases z,
{
    if z <= 0 {
        Seq::empty()
    } else {
        box_vertices(t, x, y, h, size, aw, ah, bh, z - 1) + level_vertices(
            t,
            x,
            y,
            z,
            h,
            size,
            aw,
            ah,
            z == bh,
        )
    }
}

/// The faces levels `1..=z` of an obstacle of stack height `bh` emit: four
/// side faces per level, plus the top face once the topmost level is in.
pub open spec fn box_face_count(bh: int, z: int) -> int {
    4 * z + if z >= bh && z > 0 {
        1int
    } else {
        0int
    }
}

/// The vertices one tile emits: ground tiles emit the top face of a cube at
/// level 0 textured with the canonical ground cell; obstacle tiles emit
/// their stack; all other tiles emit nothing.
pub open spec fn tile_vertices(
    t: Tile,
    x: int,
    y: int,
    h: int,
    size: int,
    aw: u16,
    ah: u16,
) -> Seq<Vertex> {
    if t.spec_is_ground() {
        face_vertices(
            CubeSide::Top,
            2 * x * size,
            0,
            2 * (h - y - 1) * size,
            size,
            tile_cell_meas(Tile::Ground, aw, ah),
        )
    } else if t.spec_height() > 0 {
        box_vertices(t, x, y, h, size, aw, ah, t.spec_height() as int, t.spec_height() as int)
    } else {
        Seq::empty()
    }
}

/// The faces one tile emits: one for ground, `4 * height + 1` for an
/// obstacle, none otherwise.
pub open spec fn tile_face_count(t: Tile) -> int {
    if t.spec_is_ground() {
        1
    } else if t.spec_height() > 0 {
        4 * t.spec_height() as int + 1
    } else {
        0
    }
}

/// The vertices the first `x` cells of row `y` emit, left to right.
pub open spec fn row_vertices(
    tiles: Seq<Tile>,
    w: int,
    h: int,
    size: int,
    aw: u16,
    ah: u16,
    y: int,
    x: int,
) -> Seq<Vertex>
    decreases x,
{
    if x <= 0 {
        Seq::empty()
    } else {
        row_vertices(tiles, w, h, size, aw, ah, y, x - 1) + tile_vertices(
            tiles[y * w + (x - 1)],
            x - 1,
            y,
            h,
            size,
            aw,
            ah,
        )
    }
}

/// The faces the first `x` cells of row `y` emit.
pub open spec fn row_face_count(tiles: Seq<Tile>, w: int, y: int, x: int) -> int
    decreases x,
{
    if x <= 0 {
        0
    } else {
        row_face_count(tiles, w, y, x - 1) + tile_face_count(tiles[y * w + (x - 1)])
    }
}

/// The vertices the first `y` rows emit, top row first.
pub open spec fn rows_vertices(
    tiles: Seq<Tile>,
    w: int,
    h: int,
    size: int,
    aw: u16,
    ah: u16,
    y: int,
) -> Seq<Vertex>
    decreases y,
{
    if y <= 0 {
        Seq::empty()
    } else {
        rows_vertices(tiles, w, h, size, aw, ah, y - 1) + row_vertices(
            tiles,
            w,
            h,
            size,
            aw,
            ah,
            y - 1,
            w,
        )
    }
}

/// The faces the first `y` rows emit.
pub open spec fn rows_face_count(tiles: Seq<Tile>, w: int, y: int) -> int
    decreases y,
{
    if y <= 0 {
        0
    } else {
        rows_face_count(tiles, w, y - 1) + row_face_count(tiles, w, y - 1, w)
    }
}

/// The whole vertex buffer the mesh builder emits for map `m`, tile size
/// `size`, and an atlas of `aw` by `ah` pixels: all rows in order.
pub open spec fn map_vertices(m: TileMap, size: int, aw: u16, ah: u16) -> Seq<Vertex> {
    rows_vertices(
        m.spec_tiles(),
        m.spec_width() as int,
        m.spec_height() as int,
        size,
        aw,
        ah,
        m.spec_height() as int,
    )
}

/// The number of faces the mesh builder emits for map `m`.
pub open spec fn map_face_count(m: TileMap) -> int {
    rows_face_count(m.spec_tiles(), m.spec_width() as int, m.spec_height() as int)
}

/// A tile emits a non-negative number of faces.
pub proof fn lemma_tile_face_count_nonneg(t: Tile)
    ensures
        0 <= tile_face_count(t),
{
}

/// Levels `1..=z` of an obstacle of stack height `bh` emit four vertices per
/// face.
pub proof fn lemma_box_vertices_len(
    t: Tile,
    x: int,
    y: int,
    h: int,
    size: int,
    aw: u16,
    ah: u16,
    bh: int,
    z: int,
)
    requires
        0 <= z <= bh,
    ensures
        box_vertices(t, x, y, h, size, aw, ah, bh, z).len() == 4 * box_face_count(bh, z),
    decreases z,
{
    if z > 0 {
        lemma_box_vertices_len(t, x, y, h, size, aw, ah, bh, z - 1);
    }
}

/// A tile emits four vertices per face.
pub proof fn lemma_tile_vertices_len(t: Tile, x: int, y: int, h: int, size: int, aw: u16, ah: u16)
    ensures
        tile_vertices(t, x, y, h, size, aw, ah).len() == 4 * tile_face_count(t),
{
    if !t.spec_is_ground() && t.spec_height() > 0 {
        lemma_box_vertices_len(
            t,
            x,
            y,
            h,
            size,
            aw,
            ah,
            t.spec_height() as int,
            t.spec_height() as int,
        );
    }
}

/// A row prefix emits four vertices per face.
pub proof fn lemma_row_vertices_len(
    tiles: Seq<Tile>,
    w: int,
    h: int,
    size: int,
    aw: u16,
    ah: u16,
    y: int,
    x: int,
)
    requires
        0 <= x,
    ensures
        row_vertices(tiles, w, h, size, aw, ah, y, x).len() == 4 * row_face_count(tiles, w, y, x),
    decreases x,
{
    if x > 0 {
        lemma_row_vertices_len(tiles, w, h, size, aw, ah, y, x - 1);
        lemma_tile_vertices_len(tiles[y * w + (x - 1)], x - 1, y, h, size, aw, ah);
    }
}

/// A block of rows emits four vertices per face.
pub proof fn lemma_rows_vertices_len(
    tiles: Seq<Tile>,
    w: int,
    h: int,
    size: int,
    aw: u16,
    ah: u16,
    y: int,
)
    requires
        0 <= y,
        0 <= w,
    ensures
        rows_vertices(tiles, w, h, size, aw, ah, y).len() == 4 * rows_face_count(tiles, w, y),
    decreases y,
{
    if y > 0 {
        lemma_rows_vertices_len(tiles, w, h, size, aw, ah, y - 1);
        lemma_row_vertices_len(tiles, w, h, size, aw, ah, y - 1, w);
    }
}

/// Row prefixes emit more faces the longer they get.
pub proof fn lemma_row_face_count_mono(tiles: Seq<Tile>, w: int, y: int, x1: int, x2: int)
    requires
        0 <= x1 <= x2,
    ensures
        row_face_count(tiles, w, y, x1) <= row_face_count(tiles, w, y, x2),
    decreases x2,
{
    if x1 < x2 {
        lemma_row_face_count_mono(tiles, w, y, x1, x2 - 1);
        lemma_tile_face_count_nonneg(tiles[y * w + (x2 - 1)]);
    }
}

/// Row blocks emit more faces the more rows they take in.
pub proof fn lemma_rows_face_count_mono(tiles: Seq<Tile>, w: int, y1: int, y2: int)
    requires
        0 <= y1 <= y2,
        0 <= w,
    ensures
        rows_face_count(tiles, w, y1) <= rows_face_count(tiles, w, y2),
    decreases y2,
{
    if y1 < y2 {
        lemma_rows_face_count_mono(tiles, w, y1, y2 - 1);
        lemma_row_face_count_mono(tiles, w, y2 - 1, 0, w);
    }
}

/// The finished mesh: one vertex buffer and one 16-bit triangle-list index
/// buffer, ready for upload by the rendering collaborator.
pub struct MapMesh {
    vertices: Vec<Vertex>,
    indexes: Vec<u16>,
}

impl MapMesh {
    /// The emitted vertices, in draw order.
    pub closed spec fn spec_vertices(&self) -> Seq<Vertex> {
        self.vertices@
    }

    /// The emitted triangle-list indices.
    pub closed spec fn spec_indexes(&self) -> Seq<u16> {
        self.indexes@
    }

    /// The vertex buffer.
    pub fn get_mesh(&self) -> (r: &Vec<Vertex>)
        ensures
            r@ == self.spec_vertices(),
    {
        &self.vertices
    }

    /// The index buffer.
    pub fn get_slice(&self) -> (r: &Vec<u16>)
        ensures
            r@ == self.spec_indexes(),
    {
        &self.indexes
    }
}

/// Walks a map's grid and accumulates the mesh: one top face per ground
/// tile, a stack of side faces (topped once) per obstacle tile.
pub struct MapMeshBuilder<'a> {
    map: &'a TileMap,
    texture_map: &'a BasicTexture,
    tile_size: u16,
    cube_maker: CubeMaker,
}

impl<'a> MapMeshBuilder<'a> {
    /// The map being built.
    pub closed spec fn spec_map(&self) -> TileMap {
        *self.map
    }

    /// The atlas texture the faces sample.
    pub closed spec fn spec_atlas(&self) -> BasicTexture {
        *self.texture_map
    }

    /// World units per grid cell.
    pub closed spec fn spec_tile_size(&self) -> u16 {
        self.tile_size
    }

    /// The vertices accumulated so far.
    pub closed spec fn spec_vertices(&self) -> Seq<Vertex> {
        self.cube_maker.spec_vertices()
    }

    /// The indices accumulated so far.
    pub closed spec fn spec_indexes(&self) -> Seq<u16> {
        self.cube_maker.spec_indexes()
    }

    /// A fresh builder over `map`, sampling `texture_map`, with `tile_size`
    /// world units per grid cell.
    pub fn new(texture_map: &'a BasicTexture, map: &'a TileMap, tile_size: u16) -> (r:
        MapMeshBuilder<'a>)
        ensures
            r.spec_map() == *map,
            r.spec_atlas() == *texture_map,
            r.spec_tile_size() == tile_size,
            r.spec_vertices() == Seq::<Vertex>::empty(),
            r.spec_indexes() == Seq::<u16>::empty(),
    {
        MapMeshBuilder { map, texture_map, tile_size, cube_maker: CubeMaker::new() }
    }

    /// The world center (half units) of the cube of grid cell `(x, y)` at
    /// stack level `z`: the grid row is flipped so that row 0 renders at the
    /// far edge, matching the derived camera.
    fn get_pos(&self, x: u16, y: u16, z: u16) -> (r: (i64, i64, i64))
        requires
            y < self.spec_map().spec_height(),
        ensures
            r.0 == 2 * (x as int) * (self.spec_tile_size() as int),
            r.1 == 2 * (z as int) * (self.spec_tile_size() as int),
            r.2 == 2 * ((self.spec_map().spec_height() as int) - (y as int) - 1) * (
            self.spec_tile_size() as int),
            -MAX_COORD <= r.0 <= MAX_COORD,
            -MAX_COORD <= r.1 <= MAX_COORD,
            -MAX_COORD <= r.2 <= MAX_COORD,
    {
        let s: i64 = self.tile_size as i64;
        let hy: u16 = self.map.height() - y - 1;
        proof {
            assert(0 <= (x as int) * (s as int) <= 65535 * 65535) by (nonlinear_arith)
                requires
                    0 <= x as int <= 65535,
                    0 <= s as int <= 65535,
            ;
            assert(0 <= (z as int) * (s as int) <= 65535 * 65535) by (nonlinear_arith)
                requires
                    0 <= z as int <= 65535,
                    0 <= s as int <= 65535,
            ;
            assert(0 <= (hy as int) * (s as int) <= 65535 * 65535) by (nonlinear_arith)
                requires
                    0 <= hy as int <= 65535,
                    0 <= s as int <= 65535,
            ;
            assert(2 * ((x as int) * (s as int)) == 2 * (x as int) * (s as int))
                by (nonlinear_arith);
            assert(2 * ((z as int) * (s as int)) == 2 * (z as int) * (s as int))
                by (nonlinear_arith);
            assert(2 * ((hy as int) * (s as int)) == 2 * (hy as int) * (s as int))
                by (nonlinear_arith);
        }
        (2 * ((x as i64) * s), 2 * ((z as i64) * s), 2 * ((hy as i64) * s))
    }

    /// Emits the one face of a ground tile at grid cell `(x, y)`: a top face
    /// at level 0, textured with the canonical ground cell of the atlas (not
    /// the cell of the specific tile standing there).
    pub fn add_ground_tile(&mut self, x: u16, y: u16)
        requires
            x < old(self).spec_map().spec_width(),
            y < old(self).spec_map().spec_height(),
            old(self).spec_vertices().len() + 4 <= MAX_MESH_VERTICES,
        ensures
            final(self).spec_map() == old(self).spec_map(),
            final(self).spec_atlas() == old(self).spec_atlas(),
            final(self).spec_tile_size() == old(self).spec_tile_size(),
            final(self).spec_vertices() == old(self).spec_vertices() + tile_vertices(
                Tile::Ground,
                x as int,
                y as int,
                old(self).spec_map().spec_height() as int,
                old(self).spec_tile_size() as int,
                old(self).spec_atlas().width,
                old(self).spec_atlas().height,
            ),
            final(self).spec_indexes() == old(self).spec_indexes() + face_indexes(
                old(self).spec_vertices().len() as int,
            ),
    {
        let pos = self.get_pos(x, y, 0);
        let tex = Tile::Ground.get_texture_slice(self.texture_map);
        let m = tex.get_measurements();
        proof {
            assert(m == tile_cell_meas(
                Tile::Ground,
                self.spec_atlas().width,
                self.spec_atlas().height,
            ));
        }
        self.cube_maker.add_top_side(pos, self.tile_size, &m);
    }

    /// Emits the stack of an obstacle tile at grid cell `(x, y)`: for each
    /// level 1 to `height`, its left, right, far and near faces, and on the
    /// topmost level its top face, all textured with the tile's own atlas
    /// cell.
    #[verifier::rlimit(100)]
    #[verifier::spinoff_prover]
    pub fn add_box(&mut self, x: u16, y: u16, height: u8, tile: Tile)
        requires
            x < old(self).spec_map().spec_width(),
            y < old(self).spec_map().spec_height(),
            old(self).spec_vertices().len() + 16 * (height as int) + 4 <= MAX_MESH_VERTICES,
        ensures
            final(self).spec_map() == old(self).spec_map(),
            final(self).spec_atlas() == old(self).spec_atlas(),
            final(self).spec_tile_size() == old(self).spec_tile_size(),
            final(self).spec_vertices() == old(self).spec_vertices() + box_vertices(
                tile,
                x as int,
                y as int,
                old(self).spec_map().spec_height() as int,
                old(self).spec_tile_size() as int,
                old(self).spec_atlas().width,
                old(self).spec_atlas().height,
                height as int,
                height as int,
            ),
            final(self).spec_indexes() == old(self).spec_indexes() + fan_indexes(
                box_face_count(height as int, height as int),
                old(self).spec_vertices().len() as int,
            ),
    {
        let ghost pre_map: TileMap = self.spec_map();
        let ghost pre_atlas: BasicTexture = self.spec_atlas();
        let ghost pre_verts: Seq<Vertex> = self.spec_vertices();
        let ghost pre_idx: Seq<u16> = self.spec_indexes();
        let ghost aw: u16 = self.spec_atlas().width;
        let ghost ah: u16 = self.spec_atlas().height;
        let ghost hmap: int = self.spec_map().spec_height() as int;
        let ghost ts: int = self.spec_tile_size() as int;
        let tex = tile.get_texture_slice(self.texture_map);
        let m = tex.get_measurements();
        proof {
            assert(m == tile_cell_meas(tile, aw, ah));
            assert(self.spec_vertices() =~= pre_verts + box_vertices(
                tile,
                x as int,
                y as int,
                hmap,
                ts,
                aw,
                ah,
                height as int,
                0,
            ));
            assert(self.spec_indexes() =~= pre_idx + fan_indexes(
                box_face_count(height as int, 0),
                pre_verts.len() as int,
            ));
        }
        let hh: u16 = height as u16;
        let mut z: u16 = 1;
        while z <= hh
            invariant
                1 <= z as int <= hh as int + 1,
                hh == height as u16,
                x < self.spec_map().spec_width(),
                y < self.spec_map().spec_height(),
                self.spec_map() == pre_map,
                self.spec_atlas() == pre_atlas,
                self.spec_tile_size() as int == ts,
                aw == pre_atlas.width,
                ah == pre_atlas.height,
                hmap == pre_map.spec_height() as int,
                m == tile_cell_meas(tile, aw, ah),
                self.spec_vertices() == pre_verts + box_vertices(
                    tile,
                    x as int,
                    y as int,
                    hmap,
                    ts,
                    aw,
                    ah,
                    height as int,
                    z as int - 1,
                ),
                self.spec_indexes() == pre_idx + fan_indexes(
                    box_face_count(height as int, z as int - 1),
                    pre_verts.len() as int,
                ),
                self.spec_vertices().len() == pre_verts.len() + 4 * box_face_count(
                    height as int,
                    z as int - 1,
                ),
                pre_verts.len() + 16 * (height as int) + 4 <= MAX_MESH_VERTICES,
            decreases hh as int + 1 - z as int,
        {
            let ghost vstart: Seq<Vertex> = self.spec_vertices();
            let ghost istart: Seq<u16> = self.spec_indexes();
            let ghost lstart: int = self.spec_vertices().len() as int;
            proof {
                assert(box_face_count(height as int, z as int - 1) == 4 * (z as int - 1));
            }
            let pos = self.get_pos(x, y, z);
            self.cube_maker.add_left_side(pos, self.tile_size, &m);
            self.cube_maker.add_right_side(pos, self.tile_size, &m);
            self.cube_maker.add_far_side(pos, self.tile_size, &m);
            self.cube_maker.add_near_side(pos, self.tile_size, &m);
            if z == hh {
                self.cube_maker.add_top_side(pos, self.tile_size, &m);
                proof {
                    assert(self.spec_vertices() =~= vstart + level_vertices(
                        tile,
                        x as int,
                        y as int,
                        z as int,
                        hmap,
                        ts,
                        aw,
                        ah,
                        true,
                    ));
                    reveal_with_fuel(fan_indexes, 7);
                    assert(self.spec_indexes() =~= istart + fan_indexes(5, lstart));
                }
            } else {
                proof {
                    assert(self.spec_vertices() =~= vstart + level_vertices(
                        tile,
                        x as int,
                        y as int,
                        z as int,
                        hmap,
                        ts,
                        aw,
                        ah,
                        false,
                    ));
                    reveal_with_fuel(fan_indexes, 7);
                    assert(self.spec_indexes() =~= istart + fan_indexes(4, lstart));
                }
            }
            proof {
                assert(box_vertices(
                    tile,
                    x as int,
                    y as int,
                    hmap,
                    ts,
                    aw,
                    ah,
                    height as int,
                    z as int,
                ) == box_vertices(tile, x as int, y as int, hmap, ts, aw, ah, height as int, (
                z as int) - 1) + level_vertices(
                    tile,
                    x as int,
                    y as int,
                    z as int,
                    hmap,
                    ts,
                    aw,
                    ah,
                    z as int == height as int,
                ));
                assert(self.spec_vertices() =~= pre_verts + box_vertices(
                    tile,
                    x as int,
                    y as int,
                    hmap,
                    ts,
                    aw,
                    ah,
                    height as int,
                    z as int,
                ));
                if z == hh {
                    lemma_fan_indexes_append(4 * (z as int - 1), 5, pre_verts.len() as int);
                    assert(box_face_count(height as int, z as int) == 4 * (z as int - 1) + 5);
                } else {
                    lemma_fan_indexes_append(4 * (z as int - 1), 4, pre_verts.len() as int);
                    assert(box_face_count(height as int, z as int) == 4 * (z as int - 1) + 4);
                }
                assert(self.spec_indexes() =~= pre_idx + fan_indexes(
                    box_face_count(height as int, z as int),
                    pre_verts.len() as int,
                ));
            }
            z = z + 1;
        }
    }

    /// Walks the grid row-major (row by row, left to right) and emits each
    /// tile's geometry: ground tiles one top face, obstacle tiles their
    /// stack, all other tiles nothing.
    #[verifier::rlimit(100)]
    #[verifier::spinoff_prover]
    pub fn build_mesh(&mut self)
        requires
            old(self).spec_map().wf(),
            old(self).spec_vertices().len() + 4 * map_face_count(old(self).spec_map())
                <= MAX_MESH_VERTICES,
        ensures
            final(self).spec_map() == old(self).spec_map(),
            final(self).spec_atlas() == old(self).spec_atlas(),
            final(self).spec_tile_size() == old(self).spec_tile_size(),
            final(self).spec_vertices() == old(self).spec_vertices() + map_vertices(
                old(self).spec_map(),
                old(self).spec_tile_size() as int,
                old(self).spec_atlas().width,
                old(self).spec_atlas().height,
            ),
            final(self).spec_indexes() == old(self).spec_indexes() + fan_indexes(
                map_face_count(old(self).spec_map()),
                old(self).spec_vertices().len() as int,
            ),
    {
        let ghost pre_map: TileMap = self.spec_map();
        let ghost pre_atlas: BasicTexture = self.spec_atlas();
        let ghost pre_verts: Seq<Vertex> = self.spec_vertices();
        let ghost pre_idx: Seq<u16> = self.spec_indexes();
        let ghost tiles: Seq<Tile> = self.spec_map().spec_tiles();
        let ghost w: int = self.spec_map().spec_width() as int;
        let ghost h: int = self.spec_map().spec_height() as int;
        let ghost aw: u16 = self.spec_atlas().width;
        let ghost ah: u16 = self.spec_atlas().height;
        let ghost ts: int = self.spec_tile_size() as int;
        let wmax: u16 = self.map.width();
        let hmax: u16 = self.map.height();
        let mut y: u16 = 0;
        while y < hmax
            invariant
                y <= hmax,
                wmax as int == w,
                hmax as int == h,
                self.spec_map() == pre_map,
                self.spec_atlas() == pre_atlas,
                self.spec_tile_size() as int == ts,
                tiles == pre_map.spec_tiles(),
                w == pre_map.spec_width() as int,
                h == pre_map.spec_height() as int,
                aw == pre_atlas.width,
                ah == pre_atlas.height,
                pre_map.wf(),
                self.spec_vertices() == pre_verts + rows_vertices(tiles, w, h, ts, aw, ah, y as int),
                self.spec_indexes() == pre_idx + fan_indexes(
                    rows_face_count(tiles, w, y as int),
                    pre_verts.len() as int,
                ),
                self.spec_vertices().len() == pre_verts.len() + 4 * rows_face_count(
                    tiles,
                    w,
                    y as int,
                ),
                pre_verts.len() + 4 * map_face_count(pre_map) <= MAX_MESH_VERTICES,
            decreases h - y as int,
        {
            let mut x: u16 = 0;
            proof {
                assert(self.spec_vertices() =~= pre_verts + rows_vertices(
                    tiles,
                    w,
                    h,
                    ts,
                    aw,
                    ah,
                    y as int,
                ) + row_vertices(tiles, w, h, ts, aw, ah, y as int, 0));
            }
            while x < wmax
                invariant
                    x <= wmax,
                    y < hmax,
                    wmax as int == w,
                    hmax as int == h,
                    self.spec_map() == pre_map,
                    self.spec_atlas() == pre_atlas,
                    self.spec_tile_size() as int == ts,
                    tiles == pre_map.spec_tiles(),
                    w == pre_map.spec_width() as int,
                    h == pre_map.spec_height() as int,
                    aw == pre_atlas.width,
                    ah == pre_atlas.height,
                    pre_map.wf(),
                    self.spec_vertices() == pre_verts + rows_vertices(
                        tiles,
                        w,
                        h,
                        ts,
                        aw,
                        ah,
                        y as int,
                    ) + row_vertices(tiles, w, h, ts, aw, ah, y as int, x as int),
                    self.spec_indexes() == pre_idx + fan_indexes(
                        rows_face_count(tiles, w, y as int) + row_face_count(
                            tiles,
                            w,
                            y as int,
                            x as int,
                        ),
                        pre_verts.len() as int,
                    ),
                    self.spec_vertices().len() == pre_verts.len() + 4 * (rows_face_count(
                        tiles,
                        w,
                        y as int,
                    ) + row_face_count(tiles, w, y as int, x as int)),
                    pre_verts.len() + 4 * map_face_count(pre_map) <= MAX_MESH_VERTICES,
                decreases w - x as int,
            {
                let ghost cur_faces: int = rows_face_count(tiles, w, y as int) + row_face_count(
                    tiles,
                    w,
                    y as int,
                    x as int,
                );
                let ghost t_spec: Tile = tiles[(y as int) * w + (x as int)];
                proof {
                    assert(0 <= (y as int) * w + (x as int) < w * h) by (nonlinear_arith)
                        requires
                            0 <= (x as int) < w,
                            0 <= (y as int) < h,
                    ;
                    assert(tiles.len() == w * h);
                    assert(row_face_count(tiles, w, y as int, x as int + 1) == row_face_count(
                        tiles,
                        w,
                        y as int,
                        x as int,
                    ) + tile_face_count(t_spec));
                    lemma_row_face_count_mono(tiles, w, y as int, x as int + 1, w);
                    assert(rows_face_count(tiles, w, y as int + 1) == rows_face_count(
                        tiles,
                        w,
                        y as int,
                    ) + row_face_count(tiles, w, y as int, w));
                    lemma_rows_face_count_mono(tiles, w, y as int + 1, h);
                    assert(map_face_count(pre_map) == rows_face_count(tiles, w, h));
                    lemma_row_face_count_mono(tiles, w, y as int, 0, x as int);
                    lemma_rows_face_count_mono(tiles, w, 0, y as int);
                    assert(cur_faces + tile_face_count(t_spec) <= map_face_count(pre_map));
                }
                let tile = self.map.get_tile(x, y);
                let ghost vrow: Seq<Vertex> = self.spec_vertices();
                if tile.is_ground() {
                    self.add_ground_tile(x, y);
                    proof {
                        assert(tile_vertices(t_spec, x as int, y as int, h, ts, aw, ah)
                            == tile_vertices(Tile::Ground, x as int, y as int, h, ts, aw, ah));
                        assert(self.spec_vertices() =~= vrow + tile_vertices(
                            t_spec,
                            x as int,
                            y as int,
                            h,
                            ts,
                            aw,
                            ah,
                        ));
                        reveal_with_fuel(fan_indexes, 2);
                        assert(fan_indexes(1, pre_verts.len() as int + 4 * cur_faces)
                            =~= face_indexes(pre_verts.len() as int + 4 * cur_faces));
                        lemma_fan_indexes_append(cur_faces, 1, pre_verts.len() as int);
                        assert(tile_face_count(t_spec) == 1);
                    }
                } else {
                    let th = tile.height();
                    if th > 0 {
                        self.add_box(x, y, th, tile);
                        proof {
                            assert(tile_vertices(t_spec, x as int, y as int, h, ts, aw, ah)
                                == box_vertices(
                                t_spec,
                                x as int,
                                y as int,
                                h,
                                ts,
                                aw,
                                ah,
                                th as int,
                                th as int,
                            ));
                            assert(self.spec_vertices() =~= vrow + tile_vertices(
                                t_spec,
                                x as int,
                                y as int,
                                h,
                                ts,
                                aw,
                                ah,
                            ));
                            lemma_fan_indexes_append(
                                cur_faces,
                                box_face_count(th as int, th as int),
                                pre_verts.len() as int,
                            );
                            assert(tile_face_count(t_spec) == box_face_count(th as int, th as int));
                        }
                    } else {
                        proof {
                            assert(tile_vertices(t_spec, x as int, y as int, h, ts, aw, ah)
                                =~= Seq::<Vertex>::empty());
                            assert(self.spec_vertices() =~= vrow + tile_vertices(
                                t_spec,
                                x as int,
                                y as int,
                                h,
                                ts,
                                aw,
                                ah,
                            ));
                            assert(tile_face_count(t_spec) == 0);
                        }
                    }
                }
                proof {
                    lemma_tile_vertices_len(t_spec, x as int, y as int, h, ts, aw, ah);
                    assert(row_vertices(tiles, w, h, ts, aw, ah, y as int, x as int + 1)
                        == row_vertices(tiles, w, h, ts, aw, ah, y as int, x as int)
                        + tile_vertices(t_spec, x as int, y as int, h, ts, aw, ah));
                    assert(self.spec_vertices() =~= pre_verts + rows_vertices(
                        tiles,
                        w,
                        h,
                        ts,
                        aw,
                        ah,
                        y as int,
                    ) + row_vertices(tiles, w, h, ts, aw, ah, y as int, x as int + 1));
                    assert(self.spec_indexes() =~= pre_idx + fan_indexes(
                        rows_face_count(tiles, w, y as int) + row_face_count(
                            tiles,
                            w,
                            y as int,
                            x as int + 1,
                        ),
                        pre_verts.len() as int,
                    ));
                }
                x = x + 1;
            }
            proof {
                assert(rows_vertices(tiles, w, h, ts, aw, ah, y as int + 1) == rows_vertices(
                    tiles,
                    w,
                    h,
                    ts,
                    aw,
                    ah,
                    y as int,
                ) + row_vertices(tiles, w, h, ts, aw, ah, y as int, w));
                assert(self.spec_vertices() =~= pre_verts + rows_vertices(
                    tiles,
                    w,
                    h,
                    ts,
                    aw,
                    ah,
                    y as int + 1,
                ));
                assert(rows_face_count(tiles, w, y as int + 1) == rows_face_count(tiles, w, y as int)
                    + row_face_count(tiles, w, y as int, w));
            }
            y = y + 1;
        }
        proof {
            assert(map_vertices(pre_map, ts, aw, ah) == rows_vertices(tiles, w, h, ts, aw, ah, h));
            assert(map_face_count(pre_map) == rows_face_count(tiles, w, h));
        }
    }

    /// Hands the finished mesh to the caller.
    pub fn finish(self) -> (r: MapMesh)
        ensures
            r.spec_vertices() == self.spec_vertices(),
            r.spec_indexes() == self.spec_indexes(),
    {
        let (vertex_data, index_data) = self.cube_maker.finish();
        MapMesh { vertices: vertex_data, indexes: index_data }
    }
}

/// Each face contributes four fresh vertices and six indices: a map's mesh
/// holds `4 * map_face_count` vertices and `6 * map_face_count` indices.
pub proof fn lemma_map_mesh_sizes(m: TileMap, size: int, aw: u16, ah: u16)
    ensures
        map_vertices(m, size, aw, ah).len() == 4 * map_face_count(m),
        fan_indexes(map_face_count(m), 0).len() == 6 * map_face_count(m),
{
    lemma_rows_vertices_len(
        m.spec_tiles(),
        m.spec_width() as int,
        m.spec_height() as int,
        size,
        aw,
        ah,
        m.spec_height() as int,
    );
    lemma_rows_face_count_mono(m.spec_tiles(), m.spec_width() as int, 0, m.spec_height() as int);
    crate::meshutils::lemma_fan_indexes_len(map_face_count(m), 0);
}

/// Mesh building is deterministic: the emitted vertex and index buffers are
/// functions of the map's grid, the tile size and the atlas dimensions
/// alone, so two builds from equal inputs yield byte-identical buffers.
pub proof fn lemma_mesh_deterministic(a: TileMap, b: TileMap, size: int, aw: u16, ah: u16)
    requires
        a.spec_tiles() == b.spec_tiles(),
        a.spec_width() == b.spec_width(),
        a.spec_height() == b.spec_height(),
    ensures
        map_vertices(a, size, aw, ah) == map_vertices(b, size, aw, ah),
        map_face_count(a) == map_face_count(b),
{
}

/// The camera placement depends on the grid dimensions alone: two maps of
/// equal width and height place the camera identically.
pub proof fn lemma_camera_deterministic(a: TileMap, b: TileMap)
    requires
        a.spec_width() == b.spec_width(),
        a.spec_height() == b.spec_height(),
    ensures
        spec_camera_view(a.spec_width(), a.spec_height()) == spec_camera_view(
            b.spec_width(),
            b.spec_height(),
        ),
{
}

} // verus!
