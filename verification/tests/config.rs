use macuse::config::{config_dir, config_dir_in, config_path, config_path_in, Config};
use macuse::paths::{join_path, PathError};

#[test]
fn default_config_is_trackpad_natural_mouse_traditional() {
    let c = Config::default();
    assert_eq!(
        c,
        Config { trackpad_natural: true, mouse_natural: false, login_at_start: false }
    );
}

#[test]
fn saved_settings_are_kept() {
    let saved = Config { trackpad_natural: false, mouse_natural: true, login_at_start: true };
    assert_eq!(Config::from_saved(Some(saved)), saved);
}

#[test]
fn missing_or_unreadable_settings_fall_back_to_defaults() {
    assert_eq!(Config::from_saved(None), Config::default());
}

#[test]
fn config_dir_under_application_support() {
    let base = b"/Users/ana/Library/Application Support".to_vec();
    assert_eq!(
        config_dir_in(Some(base)),
        Ok(b"/Users/ana/Library/Application Support/macuse".to_vec())
    );
}

#[test]
fn config_path_under_application_support() {
    let base = b"/Users/ana/Library/Application Support".to_vec();
    assert_eq!(
        config_path_in(Some(base)),
        Ok(b"/Users/ana/Library/Application Support/macuse/config.json".to_vec())
    );
}

#[test]
fn config_path_with_trailing_separator() {
    assert_eq!(
        config_path_in(Some(b"/home/ana/.config/".to_vec())),
        Ok(b"/home/ana/.config/macuse/config.json".to_vec())
    );
}

#[test]
fn no_config_dir_is_an_error() {
    assert_eq!(config_dir_in(None), Err(PathError::NoConfigDir));
    assert_eq!(config_path_in(None), Err(PathError::NoConfigDir));
}

#[test]
fn platform_config_path_ends_with_app_file() {
    match config_path() {
        Ok(p) => assert!(p.ends_with(b"/macuse/config.json")),
        Err(e) => assert_eq!(e, PathError::NoConfigDir),
    }
    match config_dir() {
        Ok(p) => assert!(p.ends_with(b"/macuse")),
        Err(e) => assert_eq!(e, PathError::NoConfigDir),
    }
}

#[test]
fn join_path_cases() {
    assert_eq!(join_path(b"/a", b"b"), b"/a/b".to_vec());
    assert_eq!(join_path(b"/a/", b"b"), b"/a/b".to_vec());
    assert_eq!(join_path(b"", b"b"), b"b".to_vec());
    assert_eq!(join_path(b"/a", b"/b"), b"/b".to_vec());
    assert_eq!(join_path(b"/a", b""), b"/a/".to_vec());
    assert_eq!(
        join_path("/home/ñ".as_bytes(), b"Library/LaunchAgents"),
        "/home/ñ/Library/LaunchAgents".as_bytes().to_vec()
    );
}

#[test]
fn non_utf8_config_dir_is_kept() {
    let base = vec![b'/', b'h', 0xff, b'x'];
    assert_eq!(
        config_path_in(Some(base)),
        Ok(vec![
            b'/', b'h', 0xff, b'x', b'/', b'm', b'a', b'c', b'u', b's', b'e', b'/', b'c', b'o',
            b'n', b'f', b'i', b'g', b'.', b'j', b's', b'o', b'n'
        ])
    );
}
