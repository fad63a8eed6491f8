use ferium_config::paths::default_config_subpath;
use std::path::PathBuf;

#[test]
fn the_configuration_lies_under_dot_config() {
    assert_eq!(default_config_subpath(), [".config", "ferium", "config.json"]);
}

#[test]
fn the_default_path_hangs_below_the_home_directory() {
    let home = PathBuf::from("/home/alex");
    let path = default_config_subpath().iter().fold(home, |path, part| path.join(part));
    assert_eq!(path, PathBuf::from("/home/alex/.config/ferium/config.json"));
}
