use khelp::commands::add::{get_cluster_names, get_context_names, get_user_names};
use khelp::commands::rename::{rename_context, RenameError};
use khelp::commands::switch::{switch_context, SwitchError};
use khelp::config::kubernetes::KubeConfig;
use khelp::test_utils::create_test_kube_config;

fn names(items: &[&str]) -> Vec<String> {
    items.iter().map(|s| s.to_string()).collect()
}

#[test]
fn test_rename_current_context_updates_selection() {
    let mut config = create_test_kube_config();

    rename_context(&mut config, "context1", "renamed-context").unwrap();

    assert_eq!(get_context_names(&config), names(&["renamed-context", "context2"]));
    assert_eq!(config.current_context, "renamed-context");
    assert_eq!(config.contexts[0].context.cluster, "cluster1");
    assert_eq!(config.contexts[0].context.user, "user1");
    assert_eq!(config.contexts[0].context.namespace, Some("default".to_string()));
}

#[test]
fn test_rename_other_context_keeps_selection() {
    let mut config = create_test_kube_config();

    rename_context(&mut config, "context2", "renamed-second").unwrap();

    assert_eq!(config.current_context, "context1");
    assert_eq!(get_context_names(&config), names(&["context1", "renamed-second"]));
}

#[test]
fn test_rename_leaves_clusters_and_users_alone() {
    let mut config = create_test_kube_config();

    rename_context(&mut config, "context1", "renamed").unwrap();

    assert_eq!(get_cluster_names(&config), names(&["cluster1", "cluster2"]));
    assert_eq!(get_user_names(&config), names(&["user1", "user2"]));
    assert_eq!(config.contexts.len(), 2);
}

#[test]
fn test_rename_to_existing_name_fails_and_changes_nothing() {
    let mut config = create_test_kube_config();

    let result = rename_context(&mut config, "context1", "context2");

    match result {
        Err(RenameError::AlreadyExists(name)) => {
            assert_eq!(name, "context2");
            assert_eq!(
                RenameError::AlreadyExists(name).message(),
                "Context 'context2' already exists"
            );
        }
        other => panic!("unexpected: {:?}", other),
    }
    assert_eq!(get_context_names(&config), names(&["context1", "context2"]));
    assert_eq!(config.current_context, "context1");
}

#[test]
fn test_rename_to_same_name_fails() {
    let mut config = create_test_kube_config();

    let result = rename_context(&mut config, "context1", "context1");

    assert!(matches!(result, Err(RenameError::AlreadyExists(_))));
    assert_eq!(get_context_names(&config), names(&["context1", "context2"]));
    assert_eq!(config.current_context, "context1");
}

#[test]
fn test_rename_of_unknown_context_fails() {
    let mut config = create_test_kube_config();

    let result = rename_context(&mut config, "nope", "context2");

    match result {
        Err(RenameError::NotFound(name)) => {
            assert_eq!(name, "nope");
            assert_eq!(RenameError::NotFound(name).message(), "Context 'nope' not found");
        }
        other => panic!("unexpected: {:?}", other),
    }
    assert!(matches!(
        rename_context(&mut config, "nope", "nope"),
        Err(RenameError::NotFound(_))
    ));
    assert!(matches!(
        rename_context(&mut KubeConfig::default(), "a", "b"),
        Err(RenameError::NotFound(_))
    ));
    assert_eq!(get_context_names(&config), names(&["context1", "context2"]));
}

#[test]
fn test_switch_selects_an_existing_context() {
    let mut config = create_test_kube_config();

    switch_context(&mut config, "context2").unwrap();

    assert_eq!(config.current_context, "context2");
    assert_eq!(config.contexts.len(), 2);
    assert_eq!(config.clusters.len(), 2);
    assert_eq!(config.users.len(), 2);

    switch_context(&mut config, "context1").unwrap();
    assert_eq!(config.current_context, "context1");
}

#[test]
fn test_switch_to_unknown_context_fails() {
    let mut config = create_test_kube_config();

    let result = switch_context(&mut config, "production");

    match result {
        Err(SwitchError::NotFound(name)) => {
            assert_eq!(name, "production");
            assert_eq!(
                SwitchError::NotFound(name).message(),
                "Context 'production' not found"
            );
        }
        other => panic!("unexpected: {:?}", other),
    }
    assert_eq!(config.current_context, "context1");
}
