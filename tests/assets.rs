use diplomacy::assets::{asset_path, is_contained_name};

#[test]
fn plain_names_are_served_from_their_directory() {
    assert_eq!(asset_path("./scripts", "main.js"), Some("./scripts/main.js".to_string()));
    assert_eq!(asset_path("./styles", "board.css"), Some("./styles/board.css".to_string()));
    assert!(is_contained_name("a"));
    assert!(is_contained_name("map.v2.js"));
}

#[test]
fn names_that_could_leave_the_directory_are_refused() {
    assert_eq!(asset_path("./scripts", ""), None);
    assert_eq!(asset_path("./scripts", ".."), None);
    assert_eq!(asset_path("./scripts", "."), None);
    assert_eq!(asset_path("./scripts", ".env"), None);
    assert_eq!(asset_path("./scripts", "../secret"), None);
    assert_eq!(asset_path("./scripts", "a/b.js"), None);
    assert_eq!(asset_path("./scripts", "a\\..\\b.js"), None);
    assert!(!is_contained_name("x/"));
}
