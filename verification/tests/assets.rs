use block_city_adventure::assets::{choose_asset_path, push_asset_candidates};
use std::path::PathBuf;

fn as_paths(candidates: &[String]) -> Vec<PathBuf> {
    candidates.iter().map(PathBuf::from).collect()
}

#[test]
fn asset_candidates_include_base_and_two_parents() {
    let mut candidates = Vec::new();
    push_asset_candidates(&mut candidates, "target/release");
    let candidates = as_paths(&candidates);

    assert!(candidates.contains(&PathBuf::from("target/release/assets")));
    assert!(candidates.contains(&PathBuf::from("target/assets")));
    assert!(candidates.contains(&PathBuf::from("assets")));
}

#[test]
fn asset_candidates_come_in_order_after_earlier_ones() {
    let mut candidates = vec!["keep".to_string()];
    push_asset_candidates(&mut candidates, "target/release");
    assert_eq!(
        as_paths(&candidates),
        vec![
            PathBuf::from("keep"),
            PathBuf::from("target/release/assets"),
            PathBuf::from("target/assets"),
            PathBuf::from("assets"),
        ]
    );
}

#[test]
fn asset_candidates_keep_a_trailing_separator() {
    let mut candidates = Vec::new();
    push_asset_candidates(&mut candidates, "");
    assert_eq!(candidates, vec!["assets".to_string()]);
    let mut root = Vec::new();
    push_asset_candidates(&mut root, "/");
    assert_eq!(root, vec!["/assets".to_string()]);
}

#[test]
fn asset_candidates_stop_at_the_root() {
    let mut candidates = vec!["keep".to_string()];
    push_asset_candidates(&mut candidates, "/opt");
    assert_eq!(
        as_paths(&candidates),
        vec![PathBuf::from("keep"), PathBuf::from("/opt/assets"), PathBuf::from("/assets")]
    );
}

#[test]
fn the_first_existing_folder_wins() {
    let c = vec!["a/assets".to_string(), "b/assets".to_string(), "c/assets".to_string()];
    assert_eq!(choose_asset_path(&c, &vec![false, true, true]), "b/assets");
    assert_eq!(choose_asset_path(&c, &vec![false, false, false]), "assets");
    assert_eq!(choose_asset_path(&vec![], &vec![]), "assets");
}
