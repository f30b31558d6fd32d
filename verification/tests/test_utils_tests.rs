use khelp::test_utils::{create_minimal_test_kube_config, create_test_kube_config};

#[test]
fn test_create_test_kube_config() {
    let config = create_test_kube_config();

    assert_eq!(config.api_version, "v1");
    assert_eq!(config.kind, "Config");
    assert_eq!(config.current_context, "context1");
    assert_eq!(config.contexts.len(), 2);
    assert_eq!(config.clusters.len(), 2);
    assert_eq!(config.users.len(), 2);
}

#[test]
fn test_create_minimal_test_kube_config() {
    let config = create_minimal_test_kube_config();

    assert_eq!(config.api_version, "v1");
    assert_eq!(config.kind, "Config");
    assert_eq!(config.current_context, "test-context");
    assert_eq!(config.contexts.len(), 1);
    assert_eq!(config.clusters.len(), 1);
    assert_eq!(config.users.len(), 1);
}

#[test]
fn test_fixture_entries_are_bound_pairwise() {
    let config = create_test_kube_config();

    assert_eq!(config.clusters[0].name, "cluster1");
    assert_eq!(config.clusters[0].cluster.server, "https://cluster1.example.com");
    assert_eq!(config.clusters[0].cluster.insecure_skip_tls_verify, Some(false));
    assert_eq!(config.clusters[1].name, "cluster2");
    assert_eq!(config.clusters[1].cluster.insecure_skip_tls_verify, None);
    assert_eq!(config.contexts[0].name, "context1");
    assert_eq!(config.contexts[0].context.cluster, "cluster1");
    assert_eq!(config.contexts[0].context.user, "user1");
    assert_eq!(config.contexts[0].context.namespace, Some("default".to_string()));
    assert_eq!(config.contexts[1].name, "context2");
    assert_eq!(config.contexts[1].context.cluster, "cluster2");
    assert_eq!(config.contexts[1].context.user, "user2");
    assert_eq!(config.contexts[1].context.namespace, None);
    assert_eq!(config.users[0].name, "user1");
    assert_eq!(
        config.users[0].user.client_certificate_data,
        Some("LS0tLS1CRUdJTi...".to_string())
    );
    assert_eq!(config.users[1].name, "user2");
    assert_eq!(
        config.users[1].user.token,
        Some("eyJhbGciOiJSUzI1NiIsImtpZCI6IiJ9...".to_string())
    );
    assert!(config.preferences.is_some());
}
