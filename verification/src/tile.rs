//! Tile classification: the closed enumeration of tile kinds, identified by a
//! small positive integer ("gid"), with its semantic predicates (ground,
//! obstacle, fluid, spawn), the encoded obstacle height, and the spawn each
//! tile produces.

use vstd::prelude::*;
use vstd::string::*;
use crate::texture::{Texture, TextureSlice};

verus! {

/// The atlas is an 8x8 grid of equal cells addressed by gid: the pixel
/// x-offset of the cell of `gid` inside an atlas `atlas_w` pixels wide is its
/// column (cell index `gid - 1`, left to right) times the cell width.
pub open spec fn cell_off_x(gid: u8, atlas_w: u16) -> int {
    ((gid - 1) % 8) * (atlas_w as int / 8)
}

/// The pixel y-offset of the atlas cell of `gid` inside an atlas `atlas_h`
/// pixels high: its row (cell index `gid - 1`, top to bottom) times the cell
/// height.
pub open spec fn cell_off_y(gid: u8, atlas_h: u16) -> int {
    ((gid - 1) / 8) * (atlas_h as int / 8)
}

/// A tile kind. Every variant corresponds to exactly one gid; the mapping is
/// a bijection over the enumerated gids (see `lemma_gid_round_trip` and
/// `lemma_gid_injective`).
#[derive(Clone, Copy, PartialEq, Eq, Structural, Debug)]
pub enum Tile {
    /// out of bounds ground (gid 1)
    Oob,
    /// ground tanks can drive on (gid 9)
    Ground,
    /// ground with a hole in it (gid 17)
    Hole,
    /// water (gid 5)
    Water,
    /// swamp (gid 6)
    Swamp,
    /// wall of height 1 (gid 2)
    Wall1,
    /// wall of height 2 (gid 10)
    Wall2,
    /// wall of height 3 (gid 18)
    Wall3,
    /// wall of height 4 (gid 26)
    Wall4,
    /// wall of height 5 (gid 34)
    Wall5,
    /// indestructible box of height 1 (gid 3)
    Box1,
    /// indestructible box of height 2 (gid 11)
    Box2,
    /// indestructible box of height 3 (gid 19)
    Box3,
    /// indestructible box of height 4 (gid 27)
    Box4,
    /// indestructible box of height 5 (gid 35)
    Box5,
    /// spawn point of player 1 (gid 13)
    Player1Spawn,
    /// spawn point of player 2 (gid 21)
    Player2Spawn,
    /// spawn point of player 3 (gid 29)
    Player3Spawn,
    /// spawn point of player 4 (gid 37)
    Player4Spawn,
    /// enemy that does not move (gid 8)
    StationaryEnemy,
    /// basic enemy (gid 16)
    BasicEnemy,
    /// faster enemy type (gid 24)
    FastEnemy,
    /// enemy tank with heat seeker (gid 40)
    HeatSeekerEnemy,
    /// enemy tank with fast rockets (gid 32)
    RocketEnemy,
    /// mine (gid 25)
    Mine,
    /// destructible crate (gid 4)
    Crate,
}

/// The kind of enemy a tile spawns.
#[derive(Clone, Copy, PartialEq, Eq, Structural, Debug)]
pub enum EnemyType {
    Stationary,
    Basic,
    Fast,
    HeatSeeker,
    Rocket,
}

/// The kind of object a tile spawns.
#[derive(Clone, Copy, PartialEq, Eq, Structural, Debug)]
pub enum ObjectType {
    Mine,
    Crate,
}

/// What a spawn tile places at level start: a player (with its index 0-3),
/// an enemy, or an object.
#[derive(Clone, Copy, PartialEq, Eq, Structural, Debug)]
pub enum Spawn {
    Player(u8),
    Enemy(EnemyType),
    Object(ObjectType),
}

impl Tile {
    /// The gid backing this tile.
    pub open spec fn spec_gid(self) -> u8 {
        match self {
            Tile::Oob => 1,
            Tile::Ground => 9,
            Tile::Hole => 17,
            Tile::Water => 5,
            Tile::Swamp => 6,
            Tile::Wall1 => 2,
            Tile::Wall2 => 10,
            Tile::Wall3 => 18,
            Tile::Wall4 => 26,
            Tile::Wall5 => 34,
            Tile::Box1 => 3,
            Tile::Box2 => 11,
            Tile::Box3 => 19,
            Tile::Box4 => 27,
            Tile::Box5 => 35,
            Tile::Player1Spawn => 13,
            Tile::Player2Spawn => 21,
            Tile::Player3Spawn => 29,
            Tile::Player4Spawn => 37,
            Tile::StationaryEnemy => 8,
            Tile::BasicEnemy => 16,
            Tile::FastEnemy => 24,
            Tile::HeatSeekerEnemy => 40,
            Tile::RocketEnemy => 32,
            Tile::Mine => 25,
            Tile::Crate => 4,
        }
    }

    /// The tile a gid denotes, if any; gids outside the enumeration denote no
    /// tile at all (they must not alias an existing one).
    pub open spec fn spec_from_gid(gid: u8) -> Option<Tile> {
        if gid == 1 {
            Some(Tile::Oob)
        } else if gid == 2 {
            Some(Tile::Wall1)
        } else if gid == 3 {
            Some(Tile::Box1)
        } else if gid == 4 {
            Some(Tile::Crate)
        } else if gid == 5 {
            Some(Tile::Water)
        } else if gid == 6 {
            Some(Tile::Swamp)
        } else if gid == 8 {
            Some(Tile::StationaryEnemy)
        } else if gid == 9 {
            Some(Tile::Ground)
        } else if gid == 10 {
            Some(Tile::Wall2)
        } else if gid == 11 {
            Some(Tile::Box2)
        } else if gid == 13 {
            Some(Tile::Player1Spawn)
        } else if gid == 16 {
            Some(Tile::BasicEnemy)
        } else if gid == 17 {
            Some(Tile::Hole)
        } else if gid == 18 {
            Some(Tile::Wall3)
        } else if gid == 19 {
            Some(Tile::Box3)
        } else if gid == 21 {
            Some(Tile::Player2Spawn)
        } else if gid == 24 {
            Some(Tile::FastEnemy)
        } else if gid == 25 {
            Some(Tile::Mine)
        } else if gid == 26 {
            Some(Tile::Wall4)
        } else if gid == 27 {
            Some(Tile::Box4)
        } else if gid == 29 {
            Some(Tile::Player3Spawn)
        } else if gid == 32 {
            Some(Tile::RocketEnemy)
        } else if gid == 34 {
            Some(Tile::Wall5)
        } else if gid == 35 {
            Some(Tile::Box5)
        } else if gid == 37 {
            Some(Tile::Player4Spawn)
        } else if gid == 40 {
            Some(Tile::HeatSeekerEnemy)
        } else {
            None
        }
    }

    /// What the tile spawns, if anything.
    pub open spec fn spec_get_spawn(self) -> Option<Spawn> {
        match self {
            Tile::Player1Spawn => Some(Spawn::Player(0)),
            Tile::Player2Spawn => Some(Spawn::Player(1)),
            Tile::Player3Spawn => Some(Spawn::Player(2)),
            Tile::Player4Spawn => Some(Spawn::Player(3)),
            Tile::StationaryEnemy => Some(Spawn::Enemy(EnemyType::Stationary)),
            Tile::BasicEnemy => Some(Spawn::Enemy(EnemyType::Basic)),
            Tile::FastEnemy => Some(Spawn::Enemy(EnemyType::Fast)),
            Tile::HeatSeekerEnemy => Some(Spawn::Enemy(EnemyType::HeatSeeker)),
            Tile::RocketEnemy => Some(Spawn::Enemy(EnemyType::Rocket)),
            Tile::Mine => Some(Spawn::Object(ObjectType::Mine)),
            Tile::Crate => Some(Spawn::Object(ObjectType::Crate)),
            _ => None,
        }
    }

    /// Whether the tile is a spawn.
    pub open spec fn spec_is_spawn(self) -> bool {
        self.spec_get_spawn() is Some
    }

    /// Whether the tile is the out-of-bounds ground.
    pub open spec fn spec_is_oob(self) -> bool {
        self == Tile::Oob
    }

    /// Whether the tile is walkable ground. Every spawn tile is ground (things
    /// spawn on the ground), as are the explicit ground and out-of-bounds
    /// tiles.
    pub open spec fn spec_is_ground(self) -> bool {
        self.spec_is_spawn() || self == Tile::Oob || self == Tile::Ground
    }

    /// Whether the tile is a fluid.
    pub open spec fn spec_is_fluid(self) -> bool {
        self == Tile::Water || self == Tile::Swamp
    }

    /// The stack height of the tile: 1-5 for walls and boxes, 0 for
    /// everything else.
    pub open spec fn spec_height(self) -> u8 {
        match self {
            Tile::Wall1 | Tile::Box1 => 1,
            Tile::Wall2 | Tile::Box2 => 2,
            Tile::Wall3 | Tile::Box3 => 3,
            Tile::Wall4 | Tile::Box4 => 4,
            Tile::Wall5 | Tile::Box5 => 5,
            _ => 0,
        }
    }

    /// Whether the tile is an obstacle: anything with a positive height.
    pub open spec fn spec_is_obstacle(self) -> bool {
        self.spec_height() > 0
    }

    /// Whether the tile stops bullets. Deliberately a predicate of its own,
    /// distinct from `spec_is_obstacle`, although the two currently agree
    /// (`lemma_blocks_bullet_is_height`): the concepts are allowed to diverge.
    pub open spec fn spec_blocks_bullet(self) -> bool {
        self.spec_height() > 0
    }

    /// Construct a tile type from a gid. Succeeds exactly on the enumerated
    /// gids; any other gid returns `None`.
    pub fn from_gid(gid: u8) -> (r: Option<Tile>)
        ensures
            r == Tile::spec_from_gid(gid),
    {
        match gid {
            1 => Some(Tile::Oob),
            2 => Some(Tile::Wall1),
            3 => Some(Tile::Box1),
            4 => Some(Tile::Crate),
            5 => Some(Tile::Water),
            6 => Some(Tile::Swamp),
            8 => Some(Tile::StationaryEnemy),
            9 => Some(Tile::Ground),
            10 => Some(Tile::Wall2),
            11 => Some(Tile::Box2),
            13 => Some(Tile::Player1Spawn),
            16 => Some(Tile::BasicEnemy),
            17 => Some(Tile::Hole),
            18 => Some(Tile::Wall3),
            19 => Some(Tile::Box3),
            21 => Some(Tile::Player2Spawn),
            24 => Some(Tile::FastEnemy),
            25 => Some(Tile::Mine),
            26 => Some(Tile::Wall4),
            27 => Some(Tile::Box4),
            29 => Some(Tile::Player3Spawn),
            32 => Some(Tile::RocketEnemy),
            34 => Some(Tile::Wall5),
            35 => Some(Tile::Box5),
            37 => Some(Tile::Player4Spawn),
            40 => Some(Tile::HeatSeekerEnemy),
            _ => None,
        }
    }

    /// True if the tile is out of bounds.
    pub fn is_oob(&self) -> (r: bool)
        ensures
            r == self.spec_is_oob(),
    {
        match *self {
            Tile::Oob => true,
            _ => false,
        }
    }

    /// True if the tile is a ground tile. Tanks can stand on these tiles.
    pub fn is_ground(&self) -> (r: bool)
        ensures
            r == self.spec_is_ground(),
    {
        // if things spawn on it, they are on a ground tile.
        if self.is_spawn() {
            return true;
        }
        match *self {
            // out of bounds is also a ground tile, just that entering it
            // should not be possible.
            Tile::Oob => true,
            Tile::Ground => true,
            _ => false,
        }
    }

    /// True if the tile is a fluid.
    pub fn is_fluid(&self) -> (r: bool)
        ensures
            r == self.spec_is_fluid(),
    {
        match *self {
            Tile::Water | Tile::Swamp => true,
            _ => false,
        }
    }

    /// True if the tile is an obstacle.
    pub fn is_obstacle(&self) -> (r: bool)
        ensures
            r == self.spec_is_obstacle(),
    {
        self.height() > 0
    }

    /// True if the tile is a spawn.
    pub fn is_spawn(&self) -> (r: bool)
        ensures
            r == self.spec_is_spawn(),
    {
        self.get_spawn().is_some()
    }

    /// Returns the height of the tile.
    pub fn height(&self) -> (r: u8)
        ensures
            r == self.spec_height(),
    {
        match *self {
            Tile::Wall1 | Tile::Box1 => 1,
            Tile::Wall2 | Tile::Box2 => 2,
            Tile::Wall3 | Tile::Box3 => 3,
            Tile::Wall4 | Tile::Box4 => 4,
            Tile::Wall5 | Tile::Box5 => 5,
            _ => 0,
        }
    }

    /// False if bullets can pass this tile.
    pub fn blocks_bullet(&self) -> (r: bool)
        ensures
            r == self.spec_blocks_bullet(),
    {
        self.height() > 0
    }

    /// Resolves what the tile spawns.
    pub fn get_spawn(&self) -> (r: Option<Spawn>)
        ensures
            r == self.spec_get_spawn(),
    {
        match *self {
            Tile::Player1Spawn => Some(Spawn::Player(0)),
            Tile::Player2Spawn => Some(Spawn::Player(1)),
            Tile::Player3Spawn => Some(Spawn::Player(2)),
            Tile::Player4Spawn => Some(Spawn::Player(3)),
            Tile::StationaryEnemy => Some(Spawn::Enemy(EnemyType::Stationary)),
            Tile::BasicEnemy => Some(Spawn::Enemy(EnemyType::Basic)),
            Tile::FastEnemy => Some(Spawn::Enemy(EnemyType::Fast)),
            Tile::HeatSeekerEnemy => Some(Spawn::Enemy(EnemyType::HeatSeeker)),
            Tile::RocketEnemy => Some(Spawn::Enemy(EnemyType::Rocket)),
            Tile::Mine => Some(Spawn::Object(ObjectType::Mine)),
            Tile::Crate => Some(Spawn::Object(ObjectType::Crate)),
            _ => None,
        }
    }

    /// Get the gid.
    pub fn get_gid(&self) -> (r: u8)
        ensures
            r == self.spec_gid(),
    {
        match *self {
            Tile::Oob => 1,
            Tile::Ground => 9,
            Tile::Hole => 17,
            Tile::Water => 5,
            Tile::Swamp => 6,
            Tile::Wall1 => 2,
            Tile::Wall2 => 10,
            Tile::Wall3 => 18,
            Tile::Wall4 => 26,
            Tile::Wall5 => 34,
            Tile::Box1 => 3,
            Tile::Box2 => 11,
            Tile::Box3 => 19,
            Tile::Box4 => 27,
            Tile::Box5 => 35,
            Tile::Player1Spawn => 13,
            Tile::Player2Spawn => 21,
            Tile::Player3Spawn => 29,
            Tile::Player4Spawn => 37,
            Tile::StationaryEnemy => 8,
            Tile::BasicEnemy => 16,
            Tile::FastEnemy => 24,
            Tile::HeatSeekerEnemy => 40,
            Tile::RocketEnemy => 32,
            Tile::Mine => 25,
            Tile::Crate => 4,
        }
    }
    /// What `debug` returns for this tile: its name and its classification,
    /// spelled out.
    pub open spec fn spec_debug(self) -> Seq<char> {
        match self {
            Tile::Oob => "<Oob is_oob=true is_ground=true height=0 spawn=none>"@,
            Tile::Ground => "<Ground is_oob=false is_ground=true height=0 spawn=none>"@,
            Tile::Hole => "<Hole is_oob=false is_ground=false height=0 spawn=none>"@,
            Tile::Water => "<Water is_oob=false is_ground=false height=0 spawn=none>"@,
            Tile::Swamp => "<Swamp is_oob=false is_ground=false height=0 spawn=none>"@,
            Tile::Wall1 => "<Wall1 is_oob=false is_ground=false height=1 spawn=none>"@,
            Tile::Wall2 => "<Wall2 is_oob=false is_ground=false height=2 spawn=none>"@,
            Tile::Wall3 => "<Wall3 is_oob=false is_ground=false height=3 spawn=none>"@,
            Tile::Wall4 => "<Wall4 is_oob=false is_ground=false height=4 spawn=none>"@,
            Tile::Wall5 => "<Wall5 is_oob=false is_ground=false height=5 spawn=none>"@,
            Tile::Box1 => "<Box1 is_oob=false is_ground=false height=1 spawn=none>"@,
            Tile::Box2 => "<Box2 is_oob=false is_ground=false height=2 spawn=none>"@,
            Tile::Box3 => "<Box3 is_oob=false is_ground=false height=3 spawn=none>"@,
            Tile::Box4 => "<Box4 is_oob=false is_ground=false height=4 spawn=none>"@,
            Tile::Box5 => "<Box5 is_oob=false is_ground=false height=5 spawn=none>"@,
            Tile::Player1Spawn => "<Player1Spawn is_oob=false is_ground=true height=0 spawn=player-0>"@,
            Tile::Player2Spawn => "<Player2Spawn is_oob=false is_ground=true height=0 spawn=player-1>"@,
            Tile::Player3Spawn => "<Player3Spawn is_oob=false is_ground=true height=0 spawn=player-2>"@,
            Tile::Player4Spawn => "<Player4Spawn is_oob=false is_ground=true height=0 spawn=player-3>"@,
            Tile::StationaryEnemy => "<StationaryEnemy is_oob=false is_ground=true height=0 spawn=enemy-stationary>"@,
            Tile::BasicEnemy => "<BasicEnemy is_oob=false is_ground=true height=0 spawn=enemy-basic>"@,
            Tile::FastEnemy => "<FastEnemy is_oob=false is_ground=true height=0 spawn=enemy-fast>"@,
            Tile::HeatSeekerEnemy => "<HeatSeekerEnemy is_oob=false is_ground=true height=0 spawn=enemy-heat-seeker>"@,
            Tile::RocketEnemy => "<RocketEnemy is_oob=false is_ground=true height=0 spawn=enemy-rocket>"@,
            Tile::Mine => "<Mine is_oob=false is_ground=true height=0 spawn=object-mine>"@,
            Tile::Crate => "<Crate is_oob=false is_ground=true height=0 spawn=object-crate>"@,
        }
    }

    /// Get detailed debug info: the tile's name, whether it is out of bounds
    /// or ground, its height, and what it spawns.
    pub fn debug(&self) -> (r: String)
        ensures
            r@ == self.spec_debug(),
    {
        match *self {
            Tile::Oob => String::from_str("<Oob is_oob=true is_ground=true height=0 spawn=none>"),
            Tile::Ground => String::from_str("<Ground is_oob=false is_ground=true height=0 spawn=none>"),
            Tile::Hole => String::from_str("<Hole is_oob=false is_ground=false height=0 spawn=none>"),
            Tile::Water => String::from_str("<Water is_oob=false is_ground=false height=0 spawn=none>"),
            Tile::Swamp => String::from_str("<Swamp is_oob=false is_ground=false height=0 spawn=none>"),
            Tile::Wall1 => String::from_str("<Wall1 is_oob=false is_ground=false height=1 spawn=none>"),
            Tile::Wall2 => String::from_str("<Wall2 is_oob=false is_ground=false height=2 spawn=none>"),
            Tile::Wall3 => String::from_str("<Wall3 is_oob=false is_ground=false height=3 spawn=none>"),
            Tile::Wall4 => String::from_str("<Wall4 is_oob=false is_ground=false height=4 spawn=none>"),
            Tile::Wall5 => String::from_str("<Wall5 is_oob=false is_ground=false height=5 spawn=none>"),
            Tile::Box1 => String::from_str("<Box1 is_oob=false is_ground=false height=1 spawn=none>"),
            Tile::Box2 => String::from_str("<Box2 is_oob=false is_ground=false height=2 spawn=none>"),
            Tile::Box3 => String::from_str("<Box3 is_oob=false is_ground=false height=3 spawn=none>"),
            Tile::Box4 => String::from_str("<Box4 is_oob=false is_ground=false height=4 spawn=none>"),
            Tile::Box5 => String::from_str("<Box5 is_oob=false is_ground=false height=5 spawn=none>"),
            Tile::Player1Spawn => String::from_str("<Player1Spawn is_oob=false is_ground=true height=0 spawn=player-0>"),
            Tile::Player2Spawn => String::from_str("<Player2Spawn is_oob=false is_ground=true height=0 spawn=player-1>"),
            Tile::Player3Spawn => String::from_str("<Player3Spawn is_oob=false is_ground=true height=0 spawn=player-2>"),
            Tile::Player4Spawn => String::from_str("<Player4Spawn is_oob=false is_ground=true height=0 spawn=player-3>"),
            Tile::StationaryEnemy => String::from_str("<StationaryEnemy is_oob=false is_ground=true height=0 spawn=enemy-stationary>"),
            Tile::BasicEnemy => String::from_str("<BasicEnemy is_oob=false is_ground=true height=0 spawn=enemy-basic>"),
            Tile::FastEnemy => String::from_str("<FastEnemy is_oob=false is_ground=true height=0 spawn=enemy-fast>"),
            Tile::HeatSeekerEnemy => String::from_str("<HeatSeekerEnemy is_oob=false is_ground=true height=0 spawn=enemy-heat-seeker>"),
            Tile::RocketEnemy => String::from_str("<RocketEnemy is_oob=false is_ground=true height=0 spawn=enemy-rocket>"),
            Tile::Mine => String::from_str("<Mine is_oob=false is_ground=true height=0 spawn=object-mine>"),
            Tile::Crate => String::from_str("<Crate is_oob=false is_ground=true height=0 spawn=object-crate>"),
        }
    }

    /// Return a texture slice for this tile from an atlas. The atlas needs
    /// to be laid out as an 8x8 grid of equal cells, gids addressing cells
    /// left to right, top to bottom.
    pub fn get_texture_slice<'a, T: Texture>(&self, tex: &'a T) -> (r: TextureSlice<'a>)
        requires
            tex.spec_offset_x() + tex.spec_width() <= u16::MAX,
            tex.spec_offset_y() + tex.spec_height() <= u16::MAX,
        ensures
            r.width == tex.spec_width() / 8,
            r.height == tex.spec_height() / 8,
            r.offset_x == tex.spec_offset_x() + cell_off_x(self.spec_gid(), tex.spec_width()),
            r.offset_y == tex.spec_offset_y() + cell_off_y(self.spec_gid(), tex.spec_height()),
            *r.parent == tex.spec_root(),
    {
        proof {
            assert(1 <= self.spec_gid() <= 40);
        }
        let idx: u16 = (self.get_gid() - 1) as u16;
        let w: u16 = tex.width() / 8;
        let h: u16 = tex.height() / 8;
        proof {
            assert((idx % 8) as int * (w as int) <= 7 * (w as int)) by (nonlinear_arith)
                requires
                    (idx % 8) as int <= 7,
                    0 <= w as int,
            ;
            assert(7 * (w as int) <= tex.spec_width() - w);
            assert((idx / 8) as int * (h as int) <= 4 * (h as int)) by (nonlinear_arith)
                requires
                    (idx / 8) as int <= 4,
                    0 <= h as int,
            ;
            assert(4 * (h as int) <= tex.spec_height());
        }
        let x: u16 = (idx % 8) * w;
        let y: u16 = (idx / 8) * h;
        tex.slice(x, y, w, h)
    }
}

/// Looking a gid up and reading the gid back round-trips: every gid the
/// enumeration covers is the gid of the tile it denotes.
pub proof fn lemma_gid_round_trip(gid: u8)
    ensures
        Tile::spec_from_gid(gid) matches Some(t) ==> t.spec_gid() == gid,
{
}

/// The gid mapping is injective: every tile is recovered from its own gid, so
/// no two tiles share a gid.
pub proof fn lemma_gid_injective(t: Tile)
    ensures
        Tile::spec_from_gid(t.spec_gid()) == Some(t),
{
}

/// A tile is a spawn exactly when it produces a spawn value.
pub proof fn lemma_spawn_iff_some(t: Tile)
    ensures
        t.spec_is_spawn() == (t.spec_get_spawn() is Some),
{
}

/// Every spawn tile is a ground tile: spawnable locations are walkable.
pub proof fn lemma_spawn_is_ground(t: Tile)
    ensures
        t.spec_is_spawn() ==> t.spec_is_ground(),
{
}

/// A tile blocks bullets exactly when it has a positive height, which is also
/// exactly when it is an obstacle.
pub proof fn lemma_blocks_bullet_is_height(t: Tile)
    ensures
        t.spec_blocks_bullet() == (t.spec_height() > 0),
        t.spec_blocks_bullet() == t.spec_is_obstacle(),
{
}

} // verus!
