//! Cube geometry primitives: the six immutable face templates of a unit cube
//! (corner offsets, outward normal, UV corners) and `CubeMaker`, the
//! accumulator that instances faces into absolute vertex/index buffers.
//!
//! Coordinates are exact: a face is placed at a center given in *half units*
//! (twice the world coordinate) and a cube of side `size` world units has its
//! corners `size` half units away from the center along each axis. Texture
//! coordinates are atlas pixel numerators (see `crate::texture`).

use vstd::prelude::*;
use crate::texture::Measurements;

verus! {

/// Vertex and index buffers address at most this many vertices: indices are
/// 16 bits wide.
pub const MAX_MESH_VERTICES: usize = 65536;

/// Face centers handed to the accumulator must stay below this magnitude in
/// half units, so that adding a cube's half-extent can never overflow.
pub const MAX_COORD: i64 = 0x4000_0000_0000_0000;

/// A mesh vertex: position in half world units, texture coordinate in atlas
/// pixels (to be divided by the atlas dimensions), and the face's outward
/// unit normal.
#[derive(Clone, Copy, PartialEq, Eq, Structural, Debug)]
pub struct Vertex {
    /// Position along the world x axis (columns), in half units.
    pub pos_x: i64,
    /// Position along the world y axis (up), in half units.
    pub pos_y: i64,
    /// Position along the world z axis (rows), in half units.
    pub pos_z: i64,
    /// Texture u coordinate, in atlas pixels.
    pub tex_u: u32,
    /// Texture v coordinate, in atlas pixels.
    pub tex_v: u32,
    /// Normal x component (-1, 0 or 1).
    pub norm_x: i8,
    /// Normal y component (-1, 0 or 1).
    pub norm_y: i8,
    /// Normal z component (-1, 0 or 1).
    pub norm_z: i8,
}

/// One of the six planar faces of a cube. "Near" faces the camera side
/// (positive z), "top" faces up (positive y).
#[derive(Clone, Copy, PartialEq, Eq, Structural, Debug)]
pub enum CubeSide {
    Near,
    Far,
    Top,
    Bottom,
    Left,
    Right,
}

/// The four vertices a face emission appends, in template (winding) order.
///
/// Each corner of `side` sits at the face's center `(x, y, z)` (half units)
/// displaced by `size` half units along each axis, carries the face's
/// constant outward normal, and samples the texture at a 0/1 UV corner scaled
/// and offset by the texture's pixel measurements: a `0` UV component maps to
/// the offset numerator, a `1` component to offset plus extent.
pub open spec fn face_vertices(
    side: CubeSide,
    x: int,
    y: int,
    z: int,
    size: int,
    m: Measurements,
) -> Seq<Vertex> {
    match side {

        CubeSide::Near => seq![
            Vertex {
                pos_x: (x - size) as i64,
                pos_y: (y - size) as i64,
                pos_z: (z + size) as i64,
                tex_u: m.off_x as u32,
                tex_v: (m.fac_y as int + m.off_y as int) as u32,
                norm_x: 0i8,
                norm_y: 0i8,
                norm_z: 1i8,
            },
            Vertex {
                pos_x: (x + size) as i64,
                pos_y: (y - size) as i64,
                pos_z: (z + size) as i64,
                tex_u: (m.fac_x as int + m.off_x as int) as u32,
                tex_v: (m.fac_y as int + m.off_y as int) as u32,
                norm_x: 0i8,
                norm_y: 0i8,
                norm_z: 1i8,
            },
            Vertex {
                pos_x: (x + size) as i64,
                pos_y: (y + size) as i64,
                pos_z: (z + size) as i64,
                tex_u: (m.fac_x as int + m.off_x as int) as u32,
                tex_v: m.off_y as u32,
                norm_x: 0i8,
                norm_y: 0i8,
                norm_z: 1i8,
            },
            Vertex {
                pos_x: (x - size) as i64,
                pos_y: (y + size) as i64,
                pos_z: (z + size) as i64,
                tex_u: m.off_x as u32,
                tex_v: m.off_y as u32,
                norm_x: 0i8,
                norm_y: 0i8,
                norm_z: 1i8,
            },
        ],
        CubeSide::Far => seq![
            Vertex {
                pos_x: (x - size) as i64,
                pos_y: (y - size) as i64,
                pos_z: (z - size) as i64,
                tex_u: (m.fac_x as int + m.off_x as int) as u32,
                tex_v: (m.fac_y as int + m.off_y as int) as u32,
                norm_x: 0i8,
                norm_y: 0i8,
                norm_z: -1i8,
            },
            Vertex {
                pos_x: (x - size) as i64,
                pos_y: (y + size) as i64,
                pos_z: (z - size) as i64,
                tex_u: (m.fac_x as int + m.off_x as int) as u32,
                tex_v: m.off_y as u32,
                norm_x: 0i8,
                norm_y: 0i8,
                norm_z: -1i8,
            },
            Vertex {
                pos_x: (x + size) as i64,
                pos_y: (y + size) as i64,
                pos_z: (z - size) as i64,
                tex_u: m.off_x as u32,
                tex_v: m.off_y as u32,
                norm_x: 0i8,
                norm_y: 0i8,
                norm_z: -1i8,
            },
            Vertex {
                pos_x: (x + size) as i64,
                pos_y: (y - size) as i64,
                pos_z: (z - size) as i64,
                tex_u: m.off_x as u32,
                tex_v: (m.fac_y as int + m.off_y as int) as u32,
                norm_x: 0i8,
                norm_y: 0i8,
                norm_z: -1i8,
            },
        ],
        CubeSide::Top => seq![
            Vertex {
                pos_x: (x - size) as i64,
                pos_y: (y + size) as i64,
                pos_z: (z - size) as i64,
                tex_u: (m.fac_x as int + m.off_x as int) as u32,
                tex_v: (m.fac_y as int + m.off_y as int) as u32,
                norm_x: 0i8,
                norm_y: 1i8,
                norm_z: 0i8,
            },
            Vertex {
                pos_x: (x - size) as i64,
                pos_y: (y + size) as i64,
                pos_z: (z + size) as i64,
                tex_u: (m.fac_x as int + m.off_x as int) as u32,
                tex_v: m.off_y as u32,
                norm_x: 0i8,
                norm_y: 1i8,
                norm_z: 0i8,
            },
            Vertex {
                pos_x: (x + size) as i64,
                pos_y: (y + size) as i64,
                pos_z: (z + size) as i64,
                tex_u: m.off_x as u32,
                tex_v: m.off_y as u32,
                norm_x: 0i8,
                norm_y: 1i8,
                norm_z: 0i8,
            },
            Vertex {
                pos_x: (x + size) as i64,
                pos_y: (y + size) as i64,
                pos_z: (z - size) as i64,
                tex_u: m.off_x as u32,
                tex_v: (m.fac_y as int + m.off_y as int) as u32,
                norm_x: 0i8,
                norm_y: 1i8,
                norm_z: 0i8,
            },
        ],
        CubeSide::Bottom => seq![
            Vertex {
                pos_x: (x - size) as i64,
                pos_y: (y - size) as i64,
                pos_z: (z - size) as i64,
                tex_u: m.off_x as u32,
                tex_v: (m.fac_y as int + m.off_y as int) as u32,
                norm_x: 0i8,
                norm_y: -1i8,
                norm_z: 0i8,
            },
            Vertex {
                pos_x: (x + size) as i64,
                pos_y: (y - size) as i64,
                pos_z: (z - size) as i64,
                tex_u: (m.fac_x as int + m.off_x as int) as u32,
                tex_v: (m.fac_y as int + m.off_y as int) as u32,
                norm_x: 0i8,
                norm_y: -1i8,
                norm_z: 0i8,
            },
            Vertex {
                pos_x: (x + size) as i64,
                pos_y: (y - size) as i64,
                pos_z: (z + size) as i64,
                tex_u: (m.fac_x as int + m.off_x as int) as u32,
                tex_v: m.off_y as u32,
                norm_x: 0i8,
                norm_y: -1i8,
                norm_z: 0i8,
            },
            Vertex {
                pos_x: (x - size) as i64,
                pos_y: (y - size) as i64,
                pos_z: (z + size) as i64,
                tex_u: m.off_x as u32,
                tex_v: m.off_y as u32,
                norm_x: 0i8,
                norm_y: -1i8,
                norm_z: 0i8,
            },
        ],
        CubeSide::Left => seq![
            Vertex {
                pos_x: (x - size) as i64,
                pos_y: (y - size) as i64,
                pos_z: (z - size) as i64,
                tex_u: m.off_x as u32,
                tex_v: (m.fac_y as int + m.off_y as int) as u32,
                norm_x: -1i8,
                norm_y: 0i8,
                norm_z: 0i8,
            },
            Vertex {
                pos_x: (x - size) as i64,
                pos_y: (y - size) as i64,
                pos_z: (z + size) as i64,
                tex_u: (m.fac_x as int + m.off_x as int) as u32,
                tex_v: (m.fac_y as int + m.off_y as int) as u32,
                norm_x: -1i8,
                norm_y: 0i8,
                norm_z: 0i8,
            },
            Vertex {
                pos_x: (x - size) as i64,
                pos_y: (y + size) as i64,
                pos_z: (z + size) as i64,
                tex_u: (m.fac_x as int + m.off_x as int) as u32,
                tex_v: m.off_y as u32,
                norm_x: -1i8,
                norm_y: 0i8,
                norm_z: 0i8,
            },
            Vertex {
                pos_x: (x - size) as i64,
                pos_y: (y + size) as i64,
                pos_z: (z - size) as i64,
                tex_u: m.off_x as u32,
                tex_v: m.off_y as u32,
                norm_x: -1i8,
                norm_y: 0i8,
                norm_z: 0i8,
            },
        ],
        CubeSide::Right => seq![
            Vertex {
                pos_x: (x + size) as i64,
                pos_y: (y - size) as i64,
                pos_z: (z - size) as i64,
                tex_u: (m.fac_x as int + m.off_x as int) as u32,
                tex_v: (m.fac_y as int + m.off_y as int) as u32,
                norm_x: 1i8,
                norm_y: 0i8,
                norm_z: 0i8,
            },
            Vertex {
                pos_x: (x + size) as i64,
                pos_y: (y + size) as i64,
                pos_z: (z - size) as i64,
                tex_u: (m.fac_x as int + m.off_x as int) as u32,
                tex_v: m.off_y as u32,
                norm_x: 1i8,
                norm_y: 0i8,
                norm_z: 0i8,
            },
            Vertex {
                pos_x: (x + size) as i64,
                pos_y: (y + size) as i64,
                pos_z: (z + size) as i64,
                tex_u: m.off_x as u32,
                tex_v: m.off_y as u32,
                norm_x: 1i8,
                norm_y: 0i8,
                norm_z: 0i8,
            },
            Vertex {
                pos_x: (x + size) as i64,
                pos_y: (y - size) as i64,
                pos_z: (z + size) as i64,
                tex_u: m.off_x as u32,
                tex_v: (m.fac_y as int + m.off_y as int) as u32,
                norm_x: 1i8,
                norm_y: 0i8,
                norm_z: 0i8,
            },
        ],
    }
}

/// The six indices a face emission appends: the fixed triangle-fan pattern
/// over the four vertices freshly appended at `base`.
pub open spec fn face_indexes(base: int) -> Seq<u16> {
    seq![
        base as u16,
        (base + 1) as u16,
        (base + 2) as u16,
        base as u16,
        (base + 2) as u16,
        (base + 3) as u16,
    ]
}

/// The index buffer that emitting `faces` consecutive faces appends when the
/// first face's vertices start at `base`: each face occupies four vertices
/// and contributes one fan pattern.
pub open spec fn fan_indexes(faces: int, base: int) -> Seq<u16>
    decreases faces,
{
    if faces <= 0 {
        Seq::empty()
    } else {
        fan_indexes(faces - 1, base) + face_indexes(base + 4 * (faces - 1))
    }
}

/// Each face contributes six indices: the fan buffer of `faces` faces is
/// `6 * faces` indices long.
pub proof fn lemma_fan_indexes_len(faces: int, base: int)
    requires
        faces >= 0,
    ensures
        fan_indexes(faces, base).len() == 6 * faces,
    decreases faces,
{
    if faces > 0 {
        lemma_fan_indexes_len(faces - 1, base);
    }
}

/// Fan index buffers compose: emitting `f1` faces and then `f2` faces is the
/// one buffer of `f1 + f2` faces.
pub proof fn lemma_fan_indexes_append(f1: int, f2: int, base: int)
    requires
        f1 >= 0,
        f2 >= 0,
    ensures
        fan_indexes(f1 + f2, base) == fan_indexes(f1, base) + fan_indexes(f2, base + 4 * f1),
    decreases f2,
{
    if f2 == 0 {
        assert(fan_indexes(f1 + f2, base) =~= fan_indexes(f1, base) + fan_indexes(
            f2,
            base + 4 * f1,
        ));
    } else {
        lemma_fan_indexes_append(f1, f2 - 1, base);
        assert(fan_indexes(f1 + f2, base) =~= fan_indexes(f1, base) + fan_indexes(
            f2,
            base + 4 * f1,
        ));
    }
}

/// Accumulates cube faces into one vertex buffer and one 16-bit index buffer.
/// Insertion order is draw order; vertices are never shared between faces.
pub struct CubeMaker {
    vertices: Vec<Vertex>,
    indexes: Vec<u16>,
}

impl CubeMaker {
    /// The vertices accumulated so far.
    pub closed spec fn spec_vertices(&self) -> Seq<Vertex> {
        self.vertices@
    }

    /// The indices accumulated so far.
    pub closed spec fn spec_indexes(&self) -> Seq<u16> {
        self.indexes@
    }

    /// An empty accumulator.
    pub fn new() -> (r: CubeMaker)
        ensures
            r.spec_vertices() == Seq::<Vertex>::empty(),
            r.spec_indexes() == Seq::<u16>::empty(),
    {
        CubeMaker { vertices: Vec::new(), indexes: Vec::new() }
    }

    /// Appends one face: four new vertices in template order and the fan
    /// pattern over them.
    fn add_side(&mut self, side: CubeSide, pos: (i64, i64, i64), size: u16, m: &Measurements)
        requires
            old(self).spec_vertices().len() + 4 <= MAX_MESH_VERTICES,
            -MAX_COORD <= pos.0 <= MAX_COORD,
            -MAX_COORD <= pos.1 <= MAX_COORD,
            -MAX_COORD <= pos.2 <= MAX_COORD,
        ensures
            final(self).spec_vertices() == old(self).spec_vertices() + face_vertices(
                side,
                pos.0 as int,
                pos.1 as int,
                pos.2 as int,
                size as int,
                *m,
            ),
            final(self).spec_indexes() == old(self).spec_indexes() + face_indexes(
                old(self).spec_vertices().len() as int,
            ),
    {
        let base: u16 = self.vertices.len() as u16;
        self.indexes.push(base);
        self.indexes.push(base + 1);
        self.indexes.push(base + 2);
        self.indexes.push(base);
        self.indexes.push(base + 2);
        self.indexes.push(base + 3);
        match side {
            CubeSide::Near => self.push_near_vertices(pos, size, m),
            CubeSide::Far => self.push_far_vertices(pos, size, m),
            CubeSide::Top => self.push_top_vertices(pos, size, m),
            CubeSide::Bottom => self.push_bottom_vertices(pos, size, m),
            CubeSide::Left => self.push_left_vertices(pos, size, m),
            CubeSide::Right => self.push_right_vertices(pos, size, m),
        }
        proof {
            assert(self.indexes@ =~= old(self).indexes@ + face_indexes(
                old(self).vertices@.len() as int,
            ));
        }
    }

    /// Appends the four template vertices of the near face.
    #[verifier::rlimit(50)]
    fn push_near_vertices(&mut self, pos: (i64, i64, i64), size: u16, m: &Measurements)
        requires
            -MAX_COORD <= pos.0 <= MAX_COORD,
            -MAX_COORD <= pos.1 <= MAX_COORD,
            -MAX_COORD <= pos.2 <= MAX_COORD,
        ensures
            final(self).spec_vertices() == old(self).spec_vertices() + face_vertices(
                CubeSide::Near,
                pos.0 as int,
                pos.1 as int,
                pos.2 as int,
                size as int,
                *m,
            ),
            final(self).spec_indexes() == old(self).spec_indexes(),
    {
        let (x, y, z) = pos;
        let s: i64 = size as i64;
        let u0: u32 = m.off_x as u32;
        let u1: u32 = m.fac_x as u32 + m.off_x as u32;
        let v0: u32 = m.off_y as u32;
        let v1: u32 = m.fac_y as u32 + m.off_y as u32;
        let w0 = Vertex {
            pos_x: x - s,
            pos_y: y - s,
            pos_z: z + s,
            tex_u: u0,
            tex_v: v1,
            norm_x: 0,
            norm_y: 0,
            norm_z: 1,
        };
        let w1 = Vertex {
            pos_x: x + s,
            pos_y: y - s,
            pos_z: z + s,
            tex_u: u1,
            tex_v: v1,
            norm_x: 0,
            norm_y: 0,
            norm_z: 1,
        };
        let w2 = Vertex {
            pos_x: x + s,
            pos_y: y + s,
            pos_z: z + s,
            tex_u: u1,
            tex_v: v0,
            norm_x: 0,
            norm_y: 0,
            norm_z: 1,
        };
        let w3 = Vertex {
            pos_x: x - s,
            pos_y: y + s,
            pos_z: z + s,
            tex_u: u0,
            tex_v: v0,
            norm_x: 0,
            norm_y: 0,
            norm_z: 1,
        };
        self.push_vertex(w0);
        self.push_vertex(w1);
        self.push_vertex(w2);
        self.push_vertex(w3);
        proof {
            assert(self.vertices@ == old(self).vertices@.push(w0).push(w1).push(w2).push(w3));
            assert(self.vertices@ =~= old(self).vertices@ + face_vertices(
                CubeSide::Near,
                pos.0 as int,
                pos.1 as int,
                pos.2 as int,
                size as int,
                *m,
            ));
        }
    }

    /// Appends the four template vertices of the far face.
    #[verifier::rlimit(50)]
    fn push_far_vertices(&mut self, pos: (i64, i64, i64), size: u16, m: &Measurements)
        requires
            -MAX_COORD <= pos.0 <= MAX_COORD,
            -MAX_COORD <= pos.1 <= MAX_COORD,
            -MAX_COORD <= pos.2 <= MAX_COORD,
        ensures
            final(self).spec_vertices() == old(self).spec_vertices() + face_vertices(
                CubeSide::Far,
                pos.0 as int,
                pos.1 as int,
                pos.2 as int,
                size as int,
                *m,
            ),
            final(self).spec_indexes() == old(self).spec_indexes(),
    {
        let (x, y, z) = pos;
        let s: i64 = size as i64;
        let u0: u32 = m.off_x as u32;
        let u1: u32 = m.fac_x as u32 + m.off_x as u32;
        let v0: u32 = m.off_y as u32;
        let v1: u32 = m.fac_y as u32 + m.off_y as u32;
        let w0 = Vertex {
            pos_x: x - s,
            pos_y: y - s,
            pos_z: z - s,
            tex_u: u1,
            tex_v: v1,
            norm_x: 0,
            norm_y: 0,
            norm_z: -1,
        };
        let w1 = Vertex {
            pos_x: x - s,
            pos_y: y + s,
            pos_z: z - s,
            tex_u: u1,
            tex_v: v0,
            norm_x: 0,
            norm_y: 0,
            norm_z: -1,
        };
        let w2 = Vertex {
            pos_x: x + s,
            pos_y: y + s,
            pos_z: z - s,
            tex_u: u0,
            tex_v: v0,
            norm_x: 0,
            norm_y: 0,
            norm_z: -1,
        };
        let w3 = Vertex {
            pos_x: x + s,
            pos_y: y - s,
            pos_z: z - s,
            tex_u: u0,
            tex_v: v1,
            norm_x: 0,
            norm_y: 0,
            norm_z: -1,
        };
        self.push_vertex(w0);
        self.push_vertex(w1);
        self.push_vertex(w2);
        self.push_vertex(w3);
        proof {
            assert(self.vertices@ == old(self).vertices@.push(w0).push(w1).push(w2).push(w3));
            assert(self.vertices@ =~= old(self).vertices@ + face_vertices(
                CubeSide::Far,
                pos.0 as int,
                pos.1 as int,
                pos.2 as int,
                size as int,
                *m,
            ));
        }
    }

    /// Appends the four template vertices of the top face.
    #[verifier::rlimit(50)]
    fn push_top_vertices(&mut self, pos: (i64, i64, i64), size: u16, m: &Measurements)
        requires
            -MAX_COORD <= pos.0 <= MAX_COORD,
            -MAX_COORD <= pos.1 <= MAX_COORD,
            -MAX_COORD <= pos.2 <= MAX_COORD,
        ensures
            final(self).spec_vertices() == old(self).spec_vertices() + face_vertices(
                CubeSide::Top,
                pos.0 as int,
                pos.1 as int,
                pos.2 as int,
                size as int,
                *m,
            ),
            final(self).spec_indexes() == old(self).spec_indexes(),
    {
        let (x, y, z) = pos;
        let s: i64 = size as i64;
        let u0: u32 = m.off_x as u32;
        let u1: u32 = m.fac_x as u32 + m.off_x as u32;
        let v0: u32 = m.off_y as u32;
        let v1: u32 = m.fac_y as u32 + m.off_y as u32;
        let w0 = Vertex {
            pos_x: x - s,
            pos_y: y + s,
            pos_z: z - s,
            tex_u: u1,
            tex_v: v1,
            norm_x: 0,
            norm_y: 1,
            norm_z: 0,
        };
        let w1 = Vertex {
            pos_x: x - s,
            pos_y: y + s,
            pos_z: z + s,
            tex_u: u1,
            tex_v: v0,
            norm_x: 0,
            norm_y: 1,
            norm_z: 0,
        };
        let w2 = Vertex {
            pos_x: x + s,
            pos_y: y + s,
            pos_z: z + s,
            tex_u: u0,
            tex_v: v0,
            norm_x: 0,
            norm_y: 1,
            norm_z: 0,
        };
        let w3 = Vertex {
            pos_x: x + s,
            pos_y: y + s,
            pos_z: z - s,
            tex_u: u0,
            tex_v: v1,
            norm_x: 0,
            norm_y: 1,
            norm_z: 0,
        };
        self.push_vertex(w0);
        self.push_vertex(w1);
        self.push_vertex(w2);
        self.push_vertex(w3);
        proof {
            assert(self.vertices@ == old(self).vertices@.push(w0).push(w1).push(w2).push(w3));
            assert(self.vertices@ =~= old(self).vertices@ + face_vertices(
                CubeSide::Top,
                pos.0 as int,
                pos.1 as int,
                pos.2 as int,
                size as int,
                *m,
            ));
        }
    }

    /// Appends the four template vertices of the bottom face.
    #[verifier::rlimit(50)]
    fn push_bottom_vertices(&mut self, pos: (i64, i64, i64), size: u16, m: &Measurements)
        requires
            -MAX_COORD <= pos.0 <= MAX_COORD,
            -MAX_COORD <= pos.1 <= MAX_COORD,
            -MAX_COORD <= pos.2 <= MAX_COORD,
        ensures
            final(self).spec_vertices() == old(self).spec_vertices() + face_vertices(
                CubeSide::Bottom,
                pos.0 as int,
                pos.1 as int,
                pos.2 as int,
                size as int,
                *m,
            ),
            final(self).spec_indexes() == old(self).spec_indexes(),
    {
        let (x, y, z) = pos;
        let s: i64 = size as i64;
        let u0: u32 = m.off_x as u32;
        let u1: u32 = m.fac_x as u32 + m.off_x as u32;
        let v0: u32 = m.off_y as u32;
        let v1: u32 = m.fac_y as u32 + m.off_y as u32;
        let w0 = Vertex {
            pos_x: x - s,
            pos_y: y - s,
            pos_z: z - s,
            tex_u: u0,
            tex_v: v1,
            norm_x: 0,
            norm_y: -1,
            norm_z: 0,
        };
        let w1 = Vertex {
            pos_x: x + s,
            pos_y: y - s,
            pos_z: z - s,
            tex_u: u1,
            tex_v: v1,
            norm_x: 0,
            norm_y: -1,
            norm_z: 0,
        };
        let w2 = Vertex {
            pos_x: x + s,
            pos_y: y - s,
            pos_z: z + s,
            tex_u: u1,
            tex_v: v0,
            norm_x: 0,
            norm_y: -1,
            norm_z: 0,
        };
        let w3 = Vertex {
            pos_x: x - s,
            pos_y: y - s,
            pos_z: z + s,
            tex_u: u0,
            tex_v: v0,
            norm_x: 0,
            norm_y: -1,
            norm_z: 0,
        };
        self.push_vertex(w0);
        self.push_vertex(w1);
        self.push_vertex(w2);
        self.push_vertex(w3);
        proof {
            assert(self.vertices@ == old(self).vertices@.push(w0).push(w1).push(w2).push(w3));
            assert(self.vertices@ =~= old(self).vertices@ + face_vertices(
                CubeSide::Bottom,
                pos.0 as int,
                pos.1 as int,
                pos.2 as int,
                size as int,
                *m,
            ));
        }
    }

    /// Appends the four template vertices of the left face.
    #[verifier::rlimit(50)]
    fn push_left_vertices(&mut self, pos: (i64, i64, i64), size: u16, m: &Measurements)
        requires
            -MAX_COORD <= pos.0 <= MAX_COORD,
            -MAX_COORD <= pos.1 <= MAX_COORD,
            -MAX_COORD <= pos.2 <= MAX_COORD,
        ensures
            final(self).spec_vertices() == old(self).spec_vertices() + face_vertices(
                CubeSide::Left,
                pos.0 as int,
                pos.1 as int,
                pos.2 as int,
                size as int,
                *m,
            ),
            final(self).spec_indexes() == old(self).spec_indexes(),
    {
        let (x, y, z) = pos;
        let s: i64 = size as i64;
        let u0: u32 = m.off_x as u32;
        let u1: u32 = m.fac_x as u32 + m.off_x as u32;
        let v0: u32 = m.off_y as u32;
        let v1: u32 = m.fac_y as u32 + m.off_y as u32;
        let w0 = Vertex {
            pos_x: x - s,
            pos_y: y - s,
            pos_z: z - s,
            tex_u: u0,
            tex_v: v1,
            norm_x: -1,
            norm_y: 0,
            norm_z: 0,
        };
        let w1 = Vertex {
            pos_x: x - s,
            pos_y: y - s,
            pos_z: z + s,
            tex_u: u1,
            tex_v: v1,
            norm_x: -1,
            norm_y: 0,
            norm_z: 0,
        };
        let w2 = Vertex {
            pos_x: x - s,
            pos_y: y + s,
            pos_z: z + s,
            tex_u: u1,
            tex_v: v0,
            norm_x: -1,
            norm_y: 0,
            norm_z: 0,
        };
        let w3 = Vertex {
            pos_x: x - s,
            pos_y: y + s,
            pos_z: z - s,
            tex_u: u0,
            tex_v: v0,
            norm_x: -1,
            norm_y: 0,
            norm_z: 0,
        };
        self.push_vertex(w0);
        self.push_vertex(w1);
        self.push_vertex(w2);
        self.push_vertex(w3);
        proof {
            assert(self.vertices@ == old(self).vertices@.push(w0).push(w1).push(w2).push(w3));
            assert(self.vertices@ =~= old(self).vertices@ + face_vertices(
                CubeSide::Left,
                pos.0 as int,
                pos.1 as int,
                pos.2 as int,
                size as int,
                *m,
            ));
        }
    }

    /// Appends the four template vertices of the right face.
    #[verifier::rlimit(50)]
    fn push_right_vertices(&mut self, pos: (i64, i64, i64), size: u16, m: &Measurements)
        requires
            -MAX_COORD <= pos.0 <= MAX_COORD,
            -MAX_COORD <= pos.1 <= MAX_COORD,
            -MAX_COORD <= pos.2 <= MAX_COORD,
        ensures
            final(self).spec_vertices() == old(self).spec_vertices() + face_vertices(
                CubeSide::Right,
                pos.0 as int,
                pos.1 as int,
                pos.2 as int,
                size as int,
                *m,
            ),
            final(self).spec_indexes() == old(self).spec_indexes(),
    {
        let (x, y, z) = pos;
        let s: i64 = size as i64;
        let u0: u32 = m.off_x as u32;
        let u1: u32 = m.fac_x as u32 + m.off_x as u32;
        let v0: u32 = m.off_y as u32;
        let v1: u32 = m.fac_y as u32 + m.off_y as u32;
        let w0 = Vertex {
            pos_x: x + s,
            pos_y: y - s,
            pos_z: z - s,
            tex_u: u1,
            tex_v: v1,
            norm_x: 1,
            norm_y: 0,
            norm_z: 0,
        };
        let w1 = Vertex {
            pos_x: x + s,
            pos_y: y + s,
            pos_z: z - s,
            tex_u: u1,
            tex_v: v0,
            norm_x: 1,
            norm_y: 0,
            norm_z: 0,
        };
        let w2 = Vertex {
            pos_x: x + s,
            pos_y: y + s,
            pos_z: z + s,
            tex_u: u0,
            tex_v: v0,
            norm_x: 1,
            norm_y: 0,
            norm_z: 0,
        };
        let w3 = Vertex {
            pos_x: x + s,
            pos_y: y - s,
            pos_z: z + s,
            tex_u: u0,
            tex_v: v1,
            norm_x: 1,
            norm_y: 0,
            norm_z: 0,
        };
        self.push_vertex(w0);
        self.push_vertex(w1);
        self.push_vertex(w2);
        self.push_vertex(w3);
        proof {
            assert(self.vertices@ == old(self).vertices@.push(w0).push(w1).push(w2).push(w3));
            assert(self.vertices@ =~= old(self).vertices@ + face_vertices(
                CubeSide::Right,
                pos.0 as int,
                pos.1 as int,
                pos.2 as int,
                size as int,
                *m,
            ));
        }
    }

    /// Appends one vertex.
    fn push_vertex(&mut self, v: Vertex)
        ensures
            final(self).spec_vertices() == old(self).spec_vertices().push(v),
            final(self).spec_indexes() == old(self).spec_indexes(),
    {
        self.vertices.push(v);
    }

    /// Appends the near face of a cube centered at `pos` (half units).
    pub fn add_near_side(&mut self, pos: (i64, i64, i64), size: u16, m: &Measurements)
        requires
            old(self).spec_vertices().len() + 4 <= MAX_MESH_VERTICES,
            -MAX_COORD <= pos.0 <= MAX_COORD,
            -MAX_COORD <= pos.1 <= MAX_COORD,
            -MAX_COORD <= pos.2 <= MAX_COORD,
        ensures
            final(self).spec_vertices() == old(self).spec_vertices() + face_vertices(
                CubeSide::Near,
                pos.0 as int,
                pos.1 as int,
                pos.2 as int,
                size as int,
                *m,
            ),
            final(self).spec_indexes() == old(self).spec_indexes() + face_indexes(
                old(self).spec_vertices().len() as int,
            ),
    {
        self.add_side(CubeSide::Near, pos, size, m)
    }

    /// Appends the far face of a cube centered at `pos` (half units).
    pub fn add_far_side(&mut self, pos: (i64, i64, i64), size: u16, m: &Measurements)
        requires
            old(self).spec_vertices().len() + 4 <= MAX_MESH_VERTICES,
            -MAX_COORD <= pos.0 <= MAX_COORD,
            -MAX_COORD <= pos.1 <= MAX_COORD,
            -MAX_COORD <= pos.2 <= MAX_COORD,
        ensures
            final(self).spec_vertices() == old(self).spec_vertices() + face_vertices(
                CubeSide::Far,
                pos.0 as int,
                pos.1 as int,
                pos.2 as int,
                size as int,
                *m,
            ),
            final(self).spec_indexes() == old(self).spec_indexes() + face_indexes(
                old(self).spec_vertices().len() as int,
            ),
    {
        self.add_side(CubeSide::Far, pos, size, m)
    }

    /// Appends the top face of a cube centered at `pos` (half units).
    pub fn add_top_side(&mut self, pos: (i64, i64, i64), size: u16, m: &Measurements)
        requires
            old(self).spec_vertices().len() + 4 <= MAX_MESH_VERTICES,
            -MAX_COORD <= pos.0 <= MAX_COORD,
            -MAX_COORD <= pos.1 <= MAX_COORD,
            -MAX_COORD <= pos.2 <= MAX_COORD,
        ensures
            final(self).spec_vertices() == old(self).spec_vertices() + face_vertices(
                CubeSide::Top,
                pos.0 as int,
                pos.1 as int,
                pos.2 as int,
                size as int,
                *m,
            ),
            final(self).spec_indexes() == old(self).spec_indexes() + face_indexes(
                old(self).spec_vertices().len() as int,
            ),
    {
        self.add_side(CubeSide::Top, pos, size, m)
    }

    /// Appends the bottom face of a cube centered at `pos` (half units).
    pub fn add_bottom_side(&mut self, pos: (i64, i64, i64), size: u16, m: &Measurements)
        requires
            old(self).spec_vertices().len() + 4 <= MAX_MESH_VERTICES,
            -MAX_COORD <= pos.0 <= MAX_COORD,
            -MAX_COORD <= pos.1 <= MAX_COORD,
            -MAX_COORD <= pos.2 <= MAX_COORD,
        ensures
            final(self).spec_vertices() == old(self).spec_vertices() + face_vertices(
                CubeSide::Bottom,
                pos.0 as int,
                pos.1 as int,
                pos.2 as int,
                size as int,
                *m,
            ),
            final(self).spec_indexes() == old(self).spec_indexes() + face_indexes(
                old(self).spec_vertices().len() as int,
            ),
    {
        self.add_side(CubeSide::Bottom, pos, size, m)
    }

    /// Appends the left face of a cube centered at `pos` (half units).
    pub fn add_left_side(&mut self, pos: (i64, i64, i64), size: u16, m: &Measurements)
        requires
            old(self).spec_vertices().len() + 4 <= MAX_MESH_VERTICES,
            -MAX_COORD <= pos.0 <= MAX_COORD,
            -MAX_COORD <= pos.1 <= MAX_COORD,
            -MAX_COORD <= pos.2 <= MAX_COORD,
        ensures
            final(self).spec_vertices() == old(self).spec_vertices() + face_vertices(
                CubeSide::Left,
                pos.0 as int,
                pos.1 as int,
                pos.2 as int,
                size as int,
                *m,
            ),
            final(self).spec_indexes() == old(self).spec_indexes() + face_indexes(
                old(self).spec_vertices().len() as int,
            ),
    {
        self.add_side(CubeSide::Left, pos, size, m)
    }

    /// Appends the right face of a cube centered at `pos` (half units).
    pub fn add_right_side(&mut self, pos: (i64, i64, i64), size: u16, m: &Measurements)
        requires
            old(self).spec_vertices().len() + 4 <= MAX_MESH_VERTICES,
            -MAX_COORD <= pos.0 <= MAX_COORD,
            -MAX_COORD <= pos.1 <= MAX_COORD,
            -MAX_COORD <= pos.2 <= MAX_COORD,
        ensures
            final(self).spec_vertices() == old(self).spec_vertices() + face_vertices(
                CubeSide::Right,
                pos.0 as int,
                pos.1 as int,
                pos.2 as int,
                size as int,
                *m,
            ),
            final(self).spec_indexes() == old(self).spec_indexes() + face_indexes(
                old(self).spec_vertices().len() as int,
            ),
    {
        self.add_side(CubeSide::Right, pos, size, m)
    }

    /// The vertices emitted by `add_all_sides`: all six faces at one center,
    /// in emission order.
    pub open spec fn all_sides_vertices(x: int, y: int, z: int, size: int, m: Measurements) -> Seq<
        Vertex,
    > {
        face_vertices(CubeSide::Near, x, y, z, size, m) + face_vertices(
            CubeSide::Far,
            x,
            y,
            z,
            size,
            m,
        ) + face_vertices(CubeSide::Left, x, y, z, size, m) + face_vertices(
            CubeSide::Right,
            x,
            y,
            z,
            size,
            m,
        ) + face_vertices(CubeSide::Top, x, y, z, size, m) + face_vertices(
            CubeSide::Bottom,
            x,
            y,
            z,
            size,
            m,
        )
    }

    /// Appends all six faces of a free-standing cube centered at `pos` (half
    /// units): near, far, left, right, top, bottom.
    pub fn add_all_sides(&mut self, pos: (i64, i64, i64), size: u16, m: &Measurements)
        requires
            old(self).spec_vertices().len() + 24 <= MAX_MESH_VERTICES,
            -MAX_COORD <= pos.0 <= MAX_COORD,
            -MAX_COORD <= pos.1 <= MAX_COORD,
            -MAX_COORD <= pos.2 <= MAX_COORD,
        ensures
            final(self).spec_vertices() == old(self).spec_vertices()
                + Self::all_sides_vertices(
                pos.0 as int,
                pos.1 as int,
                pos.2 as int,
                size as int,
                *m,
            ),
            final(self).spec_indexes() == old(self).spec_indexes() + fan_indexes(
                6,
                old(self).spec_vertices().len() as int,
            ),
    {
        self.add_near_side(pos, size, m);
        self.add_far_side(pos, size, m);
        self.add_left_side(pos, size, m);
        self.add_right_side(pos, size, m);
        self.add_top_side(pos, size, m);
        self.add_bottom_side(pos, size, m);
        proof {
            reveal_with_fuel(fan_indexes, 7);
            assert(self.vertices@ =~= old(self).vertices@ + Self::all_sides_vertices(
                pos.0 as int,
                pos.1 as int,
                pos.2 as int,
                size as int,
                *m,
            ));
            assert(self.indexes@ =~= old(self).indexes@ + fan_indexes(
                6,
                old(self).vertices@.len() as int,
            ));
        }
    }

    /// Hands the accumulated buffers to the caller.
    pub fn finish(self) -> (r: (Vec<Vertex>, Vec<u16>))
        ensures
            r.0@ == self.spec_vertices(),
            r.1@ == self.spec_indexes(),
    {
        (self.vertices, self.indexes)
    }
}

} // verus!
