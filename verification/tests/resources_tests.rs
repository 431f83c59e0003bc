use tilemesh::resources::ResourceLoader;

/// The loader joins root, category and name with slashes.
#[test]
fn filenames_join_root_category_name() {
    let rl = ResourceLoader::new_with_path(String::from("res"));
    assert_eq!(rl.get_filename("maps", "map001.json"), "res/maps/map001.json");
    assert_eq!(rl.get_filename("images", "board.png"), "res/images/board.png");
}

/// The root is taken as given, absolute or not.
#[test]
fn root_is_taken_verbatim() {
    let rl = ResourceLoader::new_with_path(String::from("/opt/game/resources"));
    assert_eq!(
        rl.get_filename("maps", "map001.json"),
        "/opt/game/resources/maps/map001.json"
    );
}
