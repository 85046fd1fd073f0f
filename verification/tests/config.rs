use image_sync_operator::config::{watch_scope, Config, SkopeoConfig, WatchScope};

fn config(cluster_scope: bool, watched: &[&str]) -> Config {
    Config {
        cluster_scope,
        watched_namespaces: watched.iter().map(|s| s.to_string()).collect(),
        skopeo: SkopeoConfig {
            image: "quay.io/skopeo/stable:latest".to_string(),
            image_pull_policy: "IfNotPresent".to_string(),
            ca_trust_bundle: None,
        },
    }
}

#[test]
fn cluster_scope_watches_everything() {
    assert!(matches!(watch_scope(&config(true, &["a"]), &"ops".to_string()), WatchScope::Cluster));
}

#[test]
fn configured_namespaces_are_watched_when_they_include_the_own_namespace() {
    match watch_scope(&config(false, &["ops", "default", "apps"]), &"ops".to_string()) {
        WatchScope::Namespaces(ns) => assert_eq!(ns, vec!["ops", "default", "apps"]),
        WatchScope::Cluster => panic!("expected namespaces"),
    }
}

#[test]
fn own_namespace_alone_otherwise() {
    match watch_scope(&config(false, &["default", "apps"]), &"ops".to_string()) {
        WatchScope::Namespaces(ns) => assert_eq!(ns, vec!["ops"]),
        WatchScope::Cluster => panic!("expected namespaces"),
    }
    match watch_scope(&config(false, &[]), &"ops".to_string()) {
        WatchScope::Namespaces(ns) => assert_eq!(ns, vec!["ops"]),
        WatchScope::Cluster => panic!("expected namespaces"),
    }
}
