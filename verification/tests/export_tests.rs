use khelp::commands::add::{get_cluster_names, get_context_names, get_user_names};
use khelp::commands::export::{export_contexts, export_selection, ExportError, ExportSelection};
use khelp::config::kubernetes::KubeConfig;
use khelp::test_utils::{create_minimal_test_kube_config, create_test_kube_config};

fn names(items: &[&str]) -> Vec<String> {
    items.iter().map(|s| s.to_string()).collect()
}

#[test]
fn test_export_of_one_context_takes_what_it_refers_to() {
    let config = create_test_kube_config();

    let exported = export_contexts(&config, &names(&["context2"])).unwrap();

    assert_eq!(get_context_names(&exported), names(&["context2"]));
    assert_eq!(get_cluster_names(&exported), names(&["cluster2"]));
    assert_eq!(get_user_names(&exported), names(&["user2"]));
    assert_eq!(exported.current_context, "context2");
    assert_eq!(exported.api_version, "v1");
    assert_eq!(exported.kind, "Config");
    assert!(exported.preferences.is_some());
    assert_eq!(exported.clusters[0].cluster.server, "https://cluster2.example.com");
    assert_eq!(config.contexts.len(), 2);
}

#[test]
fn test_export_keeps_the_order_asked_for_and_takes_each_once() {
    let mut config = create_test_kube_config();
    config.contexts[1].context.user = "user1".to_string();

    let exported =
        export_contexts(&config, &names(&["context2", "context1", "context2"])).unwrap();

    assert_eq!(get_context_names(&exported), names(&["context2", "context1"]));
    assert_eq!(get_cluster_names(&exported), names(&["cluster2", "cluster1"]));
    assert_eq!(get_user_names(&exported), names(&["user1"]));
    assert_eq!(exported.current_context, "context2");
}

#[test]
fn test_export_of_nothing_is_refused() {
    let config = create_test_kube_config();
    let result = export_contexts(&config, &names(&[]));
    assert!(matches!(result, Err(ExportError::NothingSelected)));
    assert_eq!(ExportError::NothingSelected.message(), "No contexts selected");
}

#[test]
fn test_export_of_unknown_context_is_refused_first() {
    let mut config = create_test_kube_config();
    config.contexts[0].context.cluster = "gone".to_string();

    let result = export_contexts(&config, &names(&["context1", "nope", "also-nope"]));

    match result {
        Err(ExportError::ContextNotFound(name)) => {
            assert_eq!(name, "nope");
            assert_eq!(
                ExportError::ContextNotFound(name).message(),
                "Context 'nope' not found"
            );
        }
        other => panic!("unexpected: {:?}", other),
    }
}

#[test]
fn test_export_with_missing_cluster_or_user_is_refused() {
    let mut config = create_test_kube_config();
    config.contexts[1].context.cluster = "gone".to_string();
    config.contexts[1].context.user = "gone-too".to_string();
    match export_contexts(&config, &names(&["context1", "context2"])) {
        Err(ExportError::ClusterNotFound { cluster, context }) => {
            assert_eq!(cluster, "gone");
            assert_eq!(context, "context2");
            assert_eq!(
                ExportError::ClusterNotFound { cluster, context }.message(),
                "Cluster 'gone' not found for context 'context2'"
            );
        }
        other => panic!("unexpected: {:?}", other),
    }

    let mut config = create_test_kube_config();
    config.contexts[0].context.user = "gone".to_string();
    match export_contexts(&config, &names(&["context2", "context1"])) {
        Err(ExportError::UserNotFound { user, context }) => {
            assert_eq!(user, "gone");
            assert_eq!(context, "context1");
            assert_eq!(
                ExportError::UserNotFound { user, context }.message(),
                "User 'gone' not found for context 'context1'"
            );
        }
        other => panic!("unexpected: {:?}", other),
    }
}

#[test]
fn test_selection_of_given_names() {
    let config = create_test_kube_config();
    match export_selection(&config, names(&["context2", "context1"])).unwrap() {
        ExportSelection::Selected(selected) => {
            assert_eq!(selected, names(&["context2", "context1"]))
        }
        other => panic!("unexpected: {:?}", other),
    }
    match export_selection(&config, names(&["context2", "missing"])) {
        Err(ExportError::ContextNotFound(name)) => assert_eq!(name, "missing"),
        other => panic!("unexpected: {:?}", other),
    }
}

#[test]
fn test_selection_without_names() {
    match export_selection(&create_test_kube_config(), names(&[])).unwrap() {
        ExportSelection::Ask(all) => assert_eq!(all, names(&["context1", "context2"])),
        other => panic!("unexpected: {:?}", other),
    }
    match export_selection(&create_minimal_test_kube_config(), names(&[])).unwrap() {
        ExportSelection::Selected(only) => assert_eq!(only, names(&["test-context"])),
        other => panic!("unexpected: {:?}", other),
    }
    let result = export_selection(&KubeConfig::default(), names(&[]));
    assert!(matches!(result, Err(ExportError::NoContexts)));
    assert_eq!(ExportError::NoContexts.message(), "No contexts available to export");
}
