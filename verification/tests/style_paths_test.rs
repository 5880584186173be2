use nmrs_gui::style::{
    config_dir, config_dir_under, config_root, custom_backup_path, custom_backup_path_under,
    join_path, style_path, style_path_under,
};

#[test]
fn style_paths_under_a_root() {
    assert_eq!(style_path_under(b"/home/u/.config"), b"/home/u/.config/nmrs/style.css".to_vec());
    assert_eq!(style_path_under(b"/home/u/.config/"), b"/home/u/.config/nmrs/style.css".to_vec());
    assert_eq!(style_path_under(b""), b"nmrs/style.css".to_vec());
    assert_eq!(style_path_under(b"/"), b"/nmrs/style.css".to_vec());
    assert_eq!(custom_backup_path_under(b"/home/u/.config"), b"/home/u/.config/nmrs/style.custom.css".to_vec());
    assert_eq!(config_dir_under(b"/x"), b"/x/nmrs".to_vec());
}

#[test]
fn non_utf8_root_is_kept() {
    let root: &[u8] = b"/home/\xff\xfe/.config";
    let mut expected = root.to_vec();
    expected.extend_from_slice(b"/nmrs/style.css");
    assert_eq!(style_path_under(root), expected);
}

#[test]
fn no_config_dir_means_empty_root() {
    assert_eq!(config_root(None), Vec::<u8>::new());
    assert_eq!(config_root(Some(b"/etc/xdg".to_vec())), b"/etc/xdg".to_vec());
    assert_eq!(config_dir_under(&config_root(None)), b"nmrs".to_vec());
}

#[test]
fn join_path_matches_pathbuf() {
    for (base, seg) in [("/a", "b"), ("/a/", "b"), ("", "b"), ("/a", "/b"), ("a", "b/c")] {
        let expected = std::path::Path::new(base).join(seg);
        assert_eq!(join_path(base.as_bytes(), seg.as_bytes()), expected.to_str().unwrap().as_bytes().to_vec(), "{base:?} {seg:?}");
    }
}

#[test]
fn style_paths_in_config_dir() {
    let dir = config_dir();
    assert!(dir.ends_with(b"nmrs"));
    let mut style = dir.clone();
    style.extend_from_slice(b"/style.css");
    let mut backup = dir.clone();
    backup.extend_from_slice(b"/style.custom.css");
    assert_eq!(style_path(), style);
    assert_eq!(custom_backup_path(), backup);
    let expected = dirs::config_dir().unwrap_or_default().join("nmrs");
    assert_eq!(dir, expected.to_str().unwrap().as_bytes().to_vec());
}
