use sledge::paths::{config_path_in_home, config_path_under, join_path, socket_path_for};

#[test]
fn join_adds_one_separator() {
    assert_eq!(join_path("/run/user/1000", "sledge.sock"), "/run/user/1000/sledge.sock");
    assert_eq!(join_path("/run/user/1000/", "sledge.sock"), "/run/user/1000/sledge.sock");
    assert_eq!(join_path("", "sledge.sock"), "sledge.sock");
}

#[test]
fn socket_path_prefers_runtime_dir() {
    assert_eq!(socket_path_for(Some("/run/user/501".to_string()), 501), "/run/user/501/sledge.sock");
}

#[test]
fn socket_path_falls_back_to_tmp_with_uid() {
    assert_eq!(socket_path_for(None, 501), "/tmp/sledge-501.sock");
    assert_eq!(socket_path_for(None, 0), "/tmp/sledge-0.sock");
    assert_eq!(socket_path_for(None, u32::MAX), "/tmp/sledge-4294967295.sock");
}

#[test]
fn default_config_path_is_under_sledge() {
    assert_eq!(config_path_under("/home/me/.config"), "/home/me/.config/sledge/config.toml");
    assert_eq!(config_path_under("/Users/me/Library/Application Support/"), "/Users/me/Library/Application Support/sledge/config.toml");
}

#[test]
fn default_config_path_is_under_dot_config() {
    assert_eq!(config_path_in_home("/Users/me"), "/Users/me/.config/sledge/config.toml");
    assert_eq!(config_path_in_home("/home/me/"), "/home/me/.config/sledge/config.toml");
}
