//! Texture-atlas addressing. A texture exposes its pixel width/height and its
//! pixel offset inside a larger atlas (0/0 for a whole, unsliced texture),
//! plus the pixel dimensions of the root atlas it ultimately sits in. A
//! `TextureSlice` is a non-owning sub-rectangle view of a parent texture; its
//! absolute offset is the parent's offset plus the requested local offset.
//!
//! Measurements are kept exact: instead of the normalized ratios
//! `(w/atlasW, h/atlasH, offX/atlasW, offY/atlasH)` a `Measurements` value
//! carries the four pixel numerators together with the atlas denominators.

use vstd::prelude::*;

verus! {

/// The pixel dimensions of a root atlas texture. The GPU resource behind it
/// lives with the rendering collaborator; this core only needs its geometry.
#[derive(Clone, Copy, PartialEq, Eq, Structural, Debug)]
pub struct BasicTexture {
    /// Total pixel width of the atlas.
    pub width: u16,
    /// Total pixel height of the atlas.
    pub height: u16,
}

/// A non-owning rectangular view into a parent texture. The parent must
/// outlive the slice; the borrow enforces that.
#[derive(Clone, Copy, Debug)]
pub struct TextureSlice<'a> {
    /// The root texture this slice ultimately addresses.
    pub parent: &'a BasicTexture,
    /// Pixel width of the slice.
    pub width: u16,
    /// Pixel height of the slice.
    pub height: u16,
    /// Absolute pixel x-offset inside the root atlas.
    pub offset_x: u16,
    /// Absolute pixel y-offset inside the root atlas.
    pub offset_y: u16,
}

/// The exact atlas addressing of a texture: the normalized UV scale is
/// `fac_x/atlas_width` by `fac_y/atlas_height`, and the normalized UV offset
/// is `off_x/atlas_width` by `off_y/atlas_height`.
#[derive(Clone, Copy, PartialEq, Eq, Structural, Debug)]
pub struct Measurements {
    /// Numerator of the UV x-scale: the texture's pixel width.
    pub fac_x: u16,
    /// Numerator of the UV y-scale: the texture's pixel height.
    pub fac_y: u16,
    /// Numerator of the UV x-offset: the absolute pixel x-offset.
    pub off_x: u16,
    /// Numerator of the UV y-offset: the absolute pixel y-offset.
    pub off_y: u16,
    /// Denominator of x-quantities: the root atlas pixel width.
    pub atlas_width: u16,
    /// Denominator of y-quantities: the root atlas pixel height.
    pub atlas_height: u16,
}

/// A texture: either a root atlas or a slice of one. Exposes pixel width and
/// height, the absolute pixel offset inside the root atlas, and the root
/// itself (whose dimensions are the UV denominators).
pub trait Texture: Sized {
    /// Pixel width.
    spec fn spec_width(&self) -> u16;

    /// Pixel height.
    spec fn spec_height(&self) -> u16;

    /// Absolute pixel x-offset inside the root atlas.
    spec fn spec_offset_x(&self) -> u16;

    /// Absolute pixel y-offset inside the root atlas.
    spec fn spec_offset_y(&self) -> u16;

    /// The root atlas this texture addresses.
    spec fn spec_root(&self) -> BasicTexture;

    fn width(&self) -> (r: u16)
        ensures
            r == self.spec_width(),
    ;

    fn height(&self) -> (r: u16)
        ensures
            r == self.spec_height(),
    ;

    fn offset_x(&self) -> (r: u16)
        ensures
            r == self.spec_offset_x(),
    ;

    fn offset_y(&self) -> (r: u16)
        ensures
            r == self.spec_offset_y(),
    ;

    fn basic_texture(&self) -> (r: &BasicTexture)
        ensures
            *r == self.spec_root(),
    ;

    /// The exact atlas addressing of this texture: pixel numerators over the
    /// root atlas dimensions.
    fn get_measurements(&self) -> (m: Measurements)
        ensures
            m.fac_x == self.spec_width(),
            m.fac_y == self.spec_height(),
            m.off_x == self.spec_offset_x(),
            m.off_y == self.spec_offset_y(),
            m.atlas_width == self.spec_root().width,
            m.atlas_height == self.spec_root().height,
    {
        let root = *self.basic_texture();
        Measurements {
            fac_x: self.width(),
            fac_y: self.height(),
            off_x: self.offset_x(),
            off_y: self.offset_y(),
            atlas_width: root.width,
            atlas_height: root.height,
        }
    }

    /// The slice of this texture at local offset `(x, y)` with size
    /// `(width, height)`. The rectangle is expected to lie inside the parent;
    /// no bounds check is performed, and a rectangle outside it silently
    /// addresses other parts of the atlas.
    fn slice<'a>(&'a self, x: u16, y: u16, width: u16, height: u16) -> (r: TextureSlice<'a>)
        requires
            self.spec_offset_x() + x <= u16::MAX,
            self.spec_offset_y() + y <= u16::MAX,
        ensures
            r.width == width,
            r.height == height,
            r.offset_x == self.spec_offset_x() + x,
            r.offset_y == self.spec_offset_y() + y,
            *r.parent == self.spec_root(),
    {
        TextureSlice {
            parent: self.basic_texture(),
            width,
            height,
            offset_x: self.offset_x() + x,
            offset_y: self.offset_y() + y,
        }
    }
}

impl BasicTexture {
    /// A root atlas texture of the given pixel dimensions.
    pub fn new(width: u16, height: u16) -> (r: BasicTexture)
        ensures
            r.width == width,
            r.height == height,
    {
        BasicTexture { width, height }
    }
}

impl Texture for BasicTexture {
    open spec fn spec_width(&self) -> u16 {
        self.width
    }

    open spec fn spec_height(&self) -> u16 {
        self.height
    }

    open spec fn spec_offset_x(&self) -> u16 {
        0
    }

    open spec fn spec_offset_y(&self) -> u16 {
        0
    }

    open spec fn spec_root(&self) -> BasicTexture {
        *self
    }

    fn width(&self) -> u16 {
        self.width
    }

    fn height(&self) -> u16 {
        self.height
    }

    fn offset_x(&self) -> u16 {
        0
    }

    fn offset_y(&self) -> u16 {
        0
    }

    fn basic_texture(&self) -> &BasicTexture {
        self
    }
}

impl<'p> Texture for TextureSlice<'p> {
    open spec fn spec_width(&self) -> u16 {
        self.width
    }

    open spec fn spec_height(&self) -> u16 {
        self.height
    }

    open spec fn spec_offset_x(&self) -> u16 {
        self.offset_x
    }

    open spec fn spec_offset_y(&self) -> u16 {
        self.offset_y
    }

    open spec fn spec_root(&self) -> BasicTexture {
        *self.parent
    }

    fn width(&self) -> u16 {
        self.width
    }

    fn height(&self) -> u16 {
        self.height
    }

    fn offset_x(&self) -> u16 {
        self.offset_x
    }

    fn offset_y(&self) -> u16 {
        self.offset_y
    }

    fn basic_texture(&self) -> &BasicTexture {
        self.parent
    }
}

} // verus!
