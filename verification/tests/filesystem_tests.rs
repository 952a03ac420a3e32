use openintent_adapters::filesystem::normalize_path;

#[test]
fn normalize_path_resolves_parent_components() {
    let p = std::path::Path::new("/tmp/sandbox/sub/../other");
    let norm = normalize_path(p.to_str().unwrap());
    assert_eq!(std::path::PathBuf::from(norm), std::path::PathBuf::from("/tmp/sandbox/other"));
}

#[test]
fn normalize_path_resolves_current_dir_components() {
    let p = std::path::Path::new("/tmp/./sandbox/./file.txt");
    let norm = normalize_path(p.to_str().unwrap());
    assert_eq!(std::path::PathBuf::from(norm), std::path::PathBuf::from("/tmp/sandbox/file.txt"));
}
