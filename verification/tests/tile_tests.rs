use tilemesh::tile::{EnemyType, ObjectType, Spawn, Tile};

/// Every gid that denotes a tile round-trips through the tile back to
/// itself, and exactly the 26 enumerated gids in 1..=40 are accepted.
#[test]
fn gid_round_trip() {
    let mut found: u32 = 0;
    let mut gid: u8 = 1;
    while gid <= 40 {
        if let Some(t) = Tile::from_gid(gid) {
            assert_eq!(t.get_gid(), gid);
            found += 1;
        }
        gid += 1;
    }
    assert_eq!(found, 26);
}

#[test]
fn unknown_gids_are_rejected() {
    assert_eq!(Tile::from_gid(0), None);
    assert_eq!(Tile::from_gid(7), None);
    assert_eq!(Tile::from_gid(41), None);
    assert_eq!(Tile::from_gid(64), None);
    assert_eq!(Tile::from_gid(255), None);
}

fn all_tiles() -> Vec<Tile> {
    let mut tiles = Vec::new();
    let mut gid: u8 = 1;
    while gid <= 40 {
        if let Some(t) = Tile::from_gid(gid) {
            tiles.push(t);
        }
        gid += 1;
    }
    tiles
}

/// A tile is a spawn exactly when it produces a spawn value.
#[test]
fn spawn_iff_spawn_value() {
    for t in all_tiles() {
        assert_eq!(t.is_spawn(), t.get_spawn().is_some());
    }
}

/// Every spawn tile is walkable ground.
#[test]
fn spawns_are_ground() {
    for t in all_tiles() {
        if t.is_spawn() {
            assert!(t.is_ground());
        }
    }
}

/// A tile blocks bullets exactly when its height is positive, which is also
/// exactly when it is an obstacle.
#[test]
fn blocks_bullet_is_positive_height() {
    for t in all_tiles() {
        assert_eq!(t.blocks_bullet(), t.height() > 0);
        assert_eq!(t.blocks_bullet(), t.is_obstacle());
    }
}

#[test]
fn heights_encode_the_stack() {
    assert_eq!(Tile::Wall1.height(), 1);
    assert_eq!(Tile::Wall3.height(), 3);
    assert_eq!(Tile::Wall5.height(), 5);
    assert_eq!(Tile::Box2.height(), 2);
    assert_eq!(Tile::Box4.height(), 4);
    assert_eq!(Tile::Ground.height(), 0);
    assert_eq!(Tile::Water.height(), 0);
    assert_eq!(Tile::Player1Spawn.height(), 0);
}

#[test]
fn environment_predicates() {
    assert!(Tile::Oob.is_oob());
    assert!(!Tile::Ground.is_oob());
    assert!(Tile::Oob.is_ground());
    assert!(Tile::Ground.is_ground());
    assert!(!Tile::Hole.is_ground());
    assert!(!Tile::Water.is_ground());
    assert!(Tile::Water.is_fluid());
    assert!(Tile::Swamp.is_fluid());
    assert!(!Tile::Ground.is_fluid());
    assert!(!Tile::Wall1.is_ground());
}

#[test]
fn spawn_values_are_exact() {
    assert_eq!(Tile::Player1Spawn.get_spawn(), Some(Spawn::Player(0)));
    assert_eq!(Tile::Player2Spawn.get_spawn(), Some(Spawn::Player(1)));
    assert_eq!(Tile::Player3Spawn.get_spawn(), Some(Spawn::Player(2)));
    assert_eq!(Tile::Player4Spawn.get_spawn(), Some(Spawn::Player(3)));
    assert_eq!(
        Tile::StationaryEnemy.get_spawn(),
        Some(Spawn::Enemy(EnemyType::Stationary))
    );
    assert_eq!(Tile::BasicEnemy.get_spawn(), Some(Spawn::Enemy(EnemyType::Basic)));
    assert_eq!(Tile::FastEnemy.get_spawn(), Some(Spawn::Enemy(EnemyType::Fast)));
    assert_eq!(
        Tile::HeatSeekerEnemy.get_spawn(),
        Some(Spawn::Enemy(EnemyType::HeatSeeker))
    );
    assert_eq!(Tile::RocketEnemy.get_spawn(), Some(Spawn::Enemy(EnemyType::Rocket)));
    assert_eq!(Tile::Mine.get_spawn(), Some(Spawn::Object(ObjectType::Mine)));
    assert_eq!(Tile::Crate.get_spawn(), Some(Spawn::Object(ObjectType::Crate)));
    assert_eq!(Tile::Ground.get_spawn(), None);
    assert_eq!(Tile::Wall5.get_spawn(), None);
}

#[test]
fn debug_strings() {
    assert_eq!(
        Tile::Oob.debug(),
        "<Oob is_oob=true is_ground=true height=0 spawn=none>"
    );
    assert_eq!(
        Tile::Wall3.debug(),
        "<Wall3 is_oob=false is_ground=false height=3 spawn=none>"
    );
    assert_eq!(
        Tile::Player2Spawn.debug(),
        "<Player2Spawn is_oob=false is_ground=true height=0 spawn=player-1>"
    );
}
