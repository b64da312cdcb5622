use launcher_core::{game_dir, get_minecraft_dir, minecraft_dir_base, DirBase};
use std::path::PathBuf;

#[test]
fn dir_base_per_os() {
    assert_eq!(minecraft_dir_base("windows"), Some(DirBase::Config));
    assert_eq!(minecraft_dir_base("linux"), Some(DirBase::Data));
    assert_eq!(minecraft_dir_base("macos"), None);
    assert_eq!(minecraft_dir_base("freebsd"), None);
    assert_eq!(minecraft_dir_base(""), None);
}

#[test]
fn game_dir_is_empty_where_no_base() {
    assert_eq!(get_minecraft_dir("macos"), PathBuf::new());
    assert_eq!(get_minecraft_dir("haiku"), PathBuf::new());
}

#[test]
fn game_dir_on_linux_ends_in_minecraft() {
    let dir = get_minecraft_dir("linux");
    match dirs::data_dir() {
        Some(base) => assert_eq!(dir, base.join(".minecraft")),
        None => assert_eq!(dir, PathBuf::new()),
    }
}

#[test]
fn game_dir_on_windows_uses_config_dir() {
    let dir = get_minecraft_dir("windows");
    match dirs::config_dir() {
        Some(base) => assert_eq!(dir, base.join(".minecraft")),
        None => assert_eq!(dir, PathBuf::new()),
    }
}

#[test]
fn game_dir_on_linux_is_under_data_dir() {
    let r = game_dir(
        "linux",
        Some(PathBuf::from("/home/u/.config")),
        Some(PathBuf::from("/home/u/.local/share")),
    );
    assert_eq!(r, PathBuf::from("/home/u/.local/share/.minecraft"));
}

#[test]
fn game_dir_on_windows_is_under_config_dir() {
    let r = game_dir(
        "windows",
        Some(PathBuf::from("C:/Users/u/AppData/Roaming")),
        Some(PathBuf::from("C:/Users/u/AppData/Local")),
    );
    assert_eq!(r, PathBuf::from("C:/Users/u/AppData/Roaming").join(".minecraft"));
}

#[test]
fn game_dir_elsewhere_is_empty() {
    let r = game_dir("macos", Some(PathBuf::from("/c")), Some(PathBuf::from("/d")));
    assert_eq!(r, PathBuf::new());
}

#[test]
fn game_dir_without_user_dir_is_empty() {
    assert_eq!(game_dir("windows", None, Some(PathBuf::from("/d"))), PathBuf::new());
    assert_eq!(game_dir("linux", Some(PathBuf::from("/c")), None), PathBuf::new());
}

#[test]
fn game_dir_is_empty_or_named_minecraft() {
    for os in ["windows", "linux", "macos", "freebsd"] {
        let r = get_minecraft_dir(os);
        assert!(r.as_os_str().is_empty() || r.ends_with(".minecraft"));
    }
}
