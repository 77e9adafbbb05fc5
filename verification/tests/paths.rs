use navigator_bootstrap::path::join;
use navigator_bootstrap::paths::{
    active_cluster_path, clusters_dir, last_sandbox_path, xdg_config_dir, ConfigError,
};
use std::path::{Path, PathBuf};

#[test]
fn last_sandbox_path_layout() {
    let xdg = "/tmp/xdg-config-test";
    let path = PathBuf::from(last_sandbox_path(Some(xdg), None, "my-cluster").unwrap());
    assert!(
        path.ends_with("nemoclaw/clusters/my-cluster/last_sandbox"),
        "unexpected path: {path:?}"
    );
}

#[test]
fn xdg_config_home_takes_precedence_over_home() {
    assert_eq!(
        xdg_config_dir(Some("/xdg"), Some("/home/user")),
        Ok("/xdg".to_string())
    );
    assert_eq!(xdg_config_dir(Some("/xdg"), None), Ok("/xdg".to_string()));
}

#[test]
fn home_config_is_the_fallback() {
    assert_eq!(
        xdg_config_dir(None, Some("/home/user")),
        Ok("/home/user/.config".to_string())
    );
    assert_eq!(
        xdg_config_dir(None, Some("/home/user/")),
        Ok("/home/user/.config".to_string())
    );
}

#[test]
fn empty_xdg_config_home_is_used_as_is() {
    assert_eq!(xdg_config_dir(Some(""), Some("/home/user")), Ok(String::new()));
    assert_eq!(
        active_cluster_path(Some(""), Some("/home/user")),
        Ok("nemoclaw/active_cluster".to_string())
    );
}

#[test]
fn no_home_is_an_error_everywhere() {
    assert_eq!(xdg_config_dir(None, None), Err(ConfigError::HomeNotSet));
    assert_eq!(active_cluster_path(None, None), Err(ConfigError::HomeNotSet));
    assert_eq!(clusters_dir(None, None), Err(ConfigError::HomeNotSet));
    assert_eq!(last_sandbox_path(None, None, "c"), Err(ConfigError::HomeNotSet));
    assert_eq!(ConfigError::HomeNotSet.message(), "HOME is not set");
}

#[test]
fn active_cluster_path_location() {
    assert_eq!(
        active_cluster_path(Some("/xdg"), None),
        Ok("/xdg/nemoclaw/active_cluster".to_string())
    );
    assert_eq!(
        active_cluster_path(None, Some("/home/u")),
        Ok("/home/u/.config/nemoclaw/active_cluster".to_string())
    );
}

#[test]
fn clusters_dir_location() {
    assert_eq!(
        clusters_dir(Some("/xdg/"), None),
        Ok("/xdg/nemoclaw/clusters".to_string())
    );
    assert_eq!(
        clusters_dir(None, Some("/home/u")),
        Ok("/home/u/.config/nemoclaw/clusters".to_string())
    );
}

#[test]
fn last_sandbox_path_location() {
    assert_eq!(
        last_sandbox_path(None, Some("/home/u"), "prod"),
        Ok("/home/u/.config/nemoclaw/clusters/prod/last_sandbox".to_string())
    );
    let clusters = clusters_dir(None, Some("/home/u")).unwrap();
    let last = last_sandbox_path(None, Some("/home/u"), "prod").unwrap();
    assert!(Path::new(&last).starts_with(&clusters));
}

#[test]
fn absolute_cluster_name_stays_in_the_clusters_directory() {
    assert_eq!(
        last_sandbox_path(Some("/xdg"), None, "/etc"),
        Ok("/xdg/nemoclaw/clusters//etc/last_sandbox".to_string())
    );
    let last = last_sandbox_path(Some("/xdg"), None, "/etc").unwrap();
    assert!(Path::new(&last).starts_with("/xdg/nemoclaw/clusters"));
}

#[test]
fn empty_and_trailing_separator_cluster_names() {
    assert_eq!(
        last_sandbox_path(Some("/xdg"), None, ""),
        Ok("/xdg/nemoclaw/clusters//last_sandbox".to_string())
    );
    assert_eq!(
        last_sandbox_path(Some("/xdg"), None, "a/"),
        Ok("/xdg/nemoclaw/clusters/a//last_sandbox".to_string())
    );
}

#[test]
fn clusters_get_distinct_files() {
    let a = last_sandbox_path(Some("/xdg"), None, "alpha").unwrap();
    let b = last_sandbox_path(Some("/xdg"), None, "beta").unwrap();
    let active = active_cluster_path(Some("/xdg"), None).unwrap();
    assert_ne!(a, b);
    assert_ne!(
        last_sandbox_path(Some("/xdg"), None, "a"),
        last_sandbox_path(Some("/xdg"), None, "a/")
    );
    assert_ne!(a, active);
    assert_ne!(b, active);
}

#[test]
fn join_agrees_with_pathbuf() {
    let cases = [
        ("/a", "b"),
        ("/a/", "b"),
        ("", "b"),
        ("a", ""),
        ("/a", "/b"),
        ("a/b", "c/d"),
        ("/", "x"),
        ("", ""),
    ];
    for (base, comp) in cases {
        let expected = PathBuf::from(base).join(comp);
        assert_eq!(
            PathBuf::from(join(base, comp)),
            expected,
            "join({base:?}, {comp:?})"
        );
        assert_eq!(join(base, comp), expected.to_str().unwrap());
    }
}
