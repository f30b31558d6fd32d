use khelp::commands::current::show_current_context;
use khelp::commands::list::list_contexts;
use khelp::config::kubernetes::{
    ClusterData, ClusterEntry, ContextData, ContextEntry, KubeConfig, Preferences, UserData,
    UserEntry,
};
use khelp::test_utils::create_test_kube_config;

fn create_test_config_with_namespace() -> KubeConfig {
    KubeConfig {
        api_version: "v1".to_string(),
        kind: "Config".to_string(),
        current_context: "test-context".to_string(),
        preferences: Some(Preferences {}),
        clusters: vec![ClusterEntry {
            name: "test-cluster".to_string(),
            cluster: ClusterData {
                server: "https://test.com".to_string(),
                certificate_authority_data: Some("data".to_string()),
                ..ClusterData::default()
            },
        }],
        contexts: vec![ContextEntry {
            name: "test-context".to_string(),
            context: ContextData {
                cluster: "test-cluster".to_string(),
                user: "test-user".to_string(),
                namespace: Some("test-namespace".to_string()),
            },
        }],
        users: vec![UserEntry {
            name: "test-user".to_string(),
            user: UserData {
                client_certificate_data: Some("cert".to_string()),
                client_key_data: Some("key".to_string()),
                ..UserData::default()
            },
        }],
    }
}

fn create_test_config_without_namespace() -> KubeConfig {
    let mut config = create_test_config_with_namespace();
    config.contexts[0].context.namespace = None;
    config
}

#[test]
fn test_show_current_context_with_namespace() {
    let config = create_test_config_with_namespace();

    // Test that the function doesn't panic and handles namespace correctly
    let shown = show_current_context(&config);
    assert_eq!(shown.name, "test-context");
    let details = shown.details.unwrap();
    assert_eq!(details.cluster, "test-cluster");
    assert_eq!(details.user, "test-user");
    assert_eq!(details.namespace, Some("test-namespace".to_string()));

    // Verify the config has the expected structure
    assert_eq!(config.current_context, "test-context");
    assert!(config.contexts.iter().any(|c| c.name == "test-context"));
    assert_eq!(
        config.contexts[0].context.namespace,
        Some("test-namespace".to_string())
    );
}

#[test]
fn test_show_current_context_without_namespace() {
    let config = create_test_config_without_namespace();

    // Test that the function doesn't panic when namespace is None
    let shown = show_current_context(&config);
    assert_eq!(shown.details.unwrap().namespace, None);

    // Verify the config structure
    assert_eq!(config.current_context, "test-context");
    assert!(config.contexts.iter().any(|c| c.name == "test-context"));
    assert_eq!(config.contexts[0].context.namespace, None);
}

#[test]
fn test_show_current_context_missing_context() {
    let mut config = create_test_config_with_namespace();
    config.current_context = "non-existent-context".to_string();

    // Should not panic even when current context doesn't exist in contexts list
    let shown = show_current_context(&config);
    assert_eq!(shown.name, "non-existent-context");
    assert!(shown.details.is_none());
}

#[test]
fn test_show_current_context_empty_contexts() {
    let mut config = create_test_config_with_namespace();
    config.contexts.clear();

    // Should not panic even with empty contexts
    let shown = show_current_context(&config);
    assert_eq!(shown.name, "test-context");
    assert!(shown.details.is_none());
}

#[test]
fn test_show_current_context_takes_first_of_a_name() {
    let mut config = create_test_kube_config();
    config.contexts[1].name = "context1".to_string();
    let shown = show_current_context(&config);
    assert_eq!(shown.details.unwrap().cluster, "cluster1");
}

#[test]
fn test_list_contexts_marks_the_current_one() {
    let config = create_test_kube_config();

    let lines = list_contexts(&config);

    assert_eq!(lines.len(), 2);
    assert_eq!(lines[0].name, "context1");
    assert!(lines[0].is_current);
    assert_eq!(lines[0].namespace, Some("default".to_string()));
    assert_eq!(lines[1].name, "context2");
    assert!(!lines[1].is_current);
    assert_eq!(lines[1].namespace, None);
}

#[test]
fn test_list_contexts_of_empty_and_unselected_documents() {
    assert!(list_contexts(&KubeConfig::default()).is_empty());

    let mut config = create_test_kube_config();
    config.current_context = String::new();
    let lines = list_contexts(&config);
    assert!(lines.iter().all(|line| !line.is_current));
}
