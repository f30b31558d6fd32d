use khelp::commands::add::{get_cluster_names, get_context_names, get_user_names};
use khelp::commands::cleanup::{cleanup_orphans, find_orphans};
use khelp::commands::delete::{
    delete_context, delete_target, replacement_candidates, DeleteError, DeleteTarget, Replacement,
};
use khelp::config::kubernetes::{
    ClusterData, ClusterEntry, ContextData, ContextEntry, KubeConfig, UserData, UserEntry,
};

fn document(names: &[&str]) -> KubeConfig {
    let mut config = KubeConfig::default();
    for name in names {
        config.clusters.push(ClusterEntry {
            name: format!("{}-cluster", name),
            cluster: ClusterData {
                server: format!("https://{}.example.com:6443", name),
                ..ClusterData::default()
            },
        });
        config.users.push(UserEntry {
            name: format!("{}-user", name),
            user: UserData { token: Some(format!("{}-token", name)), ..UserData::default() },
        });
        config.contexts.push(ContextEntry {
            name: name.to_string(),
            context: ContextData {
                cluster: format!("{}-cluster", name),
                user: format!("{}-user", name),
                namespace: None,
            },
        });
    }
    if let Some(first) = names.first() {
        config.current_context = first.to_string();
    }
    config
}

fn names(items: &[&str]) -> Vec<String> {
    items.iter().map(|s| s.to_string()).collect()
}

#[test]
fn test_delete_removes_only_the_named_context() {
    let mut config = document(&["test-context", "second-context"]);

    let report = delete_context(&mut config, "second-context", Replacement::First, false).unwrap();

    assert_eq!(get_context_names(&config), names(&["test-context"]));
    assert_eq!(config.current_context, "test-context");
    assert_eq!(
        get_cluster_names(&config),
        names(&["test-context-cluster", "second-context-cluster"])
    );
    assert_eq!(get_user_names(&config), names(&["test-context-user", "second-context-user"]));
    assert_eq!(report.switched_to, None);
    assert!(report.removed.is_empty());
}

#[test]
fn test_delete_with_cleanup_removes_orphaned_cluster_and_user() {
    let mut config = document(&["test-context", "second-context"]);

    let report = delete_context(&mut config, "second-context", Replacement::Refuse, true).unwrap();

    assert_eq!(get_context_names(&config), names(&["test-context"]));
    assert_eq!(get_cluster_names(&config), names(&["test-context-cluster"]));
    assert_eq!(get_user_names(&config), names(&["test-context-user"]));
    assert_eq!(report.removed.clusters, names(&["second-context-cluster"]));
    assert_eq!(report.removed.users, names(&["second-context-user"]));
}

#[test]
fn test_delete_with_cleanup_keeps_what_is_still_referenced() {
    let mut config = document(&["a", "b"]);
    config.contexts[1].context.cluster = "a-cluster".to_string();

    let report = delete_context(&mut config, "a", Replacement::First, true).unwrap();

    assert_eq!(get_context_names(&config), names(&["b"]));
    assert_eq!(get_cluster_names(&config), names(&["a-cluster"]));
    assert_eq!(get_user_names(&config), names(&["b-user"]));
    assert_eq!(report.removed.clusters, names(&["b-cluster"]));
    assert_eq!(report.removed.users, names(&["a-user"]));
    assert_eq!(config.current_context, "b");
}

#[test]
fn test_delete_current_context_forced_selects_the_other() {
    let mut config = document(&["test-context", "second-context"]);

    let report = delete_context(&mut config, "test-context", Replacement::First, false).unwrap();

    assert_eq!(config.current_context, "second-context");
    assert_eq!(get_context_names(&config), names(&["second-context"]));
    assert!(!config.contexts.iter().any(|c| c.name == "test-context"));
    assert_eq!(report.switched_to, Some("second-context".to_string()));
}

#[test]
fn test_delete_current_context_selects_first_remaining() {
    let mut config = document(&["a", "b", "c"]);
    config.current_context = "b".to_string();

    delete_context(&mut config, "b", Replacement::First, false).unwrap();

    assert_eq!(config.current_context, "a");
    assert_eq!(get_context_names(&config), names(&["a", "c"]));
}

#[test]
fn test_delete_current_context_selects_named_replacement() {
    let mut config = document(&["a", "b", "c"]);

    let report =
        delete_context(&mut config, "a", Replacement::Named("c".to_string()), false).unwrap();

    assert_eq!(config.current_context, "c");
    assert_eq!(report.switched_to, Some("c".to_string()));
    assert_eq!(get_context_names(&config), names(&["b", "c"]));
}

#[test]
fn test_delete_last_context_clears_selection() {
    let mut config = document(&["only"]);

    let report = delete_context(&mut config, "only", Replacement::Refuse, false).unwrap();

    assert!(config.contexts.is_empty());
    assert_eq!(config.current_context, "");
    assert_eq!(report.switched_to, None);
}

#[test]
fn test_delete_is_refused_without_contexts() {
    let mut config = KubeConfig::default();
    let result = delete_context(&mut config, "x", Replacement::First, true);
    assert!(matches!(result, Err(DeleteError::NoContexts)));
    assert_eq!(
        DeleteError::NoContexts.message(),
        "No contexts available to delete"
    );
    assert!(matches!(delete_target(&config, None), Err(DeleteError::NoContexts)));
    assert!(matches!(
        delete_target(&config, Some("x".to_string())),
        Err(DeleteError::NoContexts)
    ));
}

#[test]
fn test_delete_is_refused_for_unknown_context() {
    let mut config = document(&["a", "b"]);
    let result = delete_context(&mut config, "zzz", Replacement::First, true);
    match result {
        Err(DeleteError::NotFound(name)) => {
            assert_eq!(name, "zzz");
            assert_eq!(DeleteError::NotFound(name).message(), "Context 'zzz' not found");
        }
        other => panic!("unexpected: {:?}", other),
    }
    assert_eq!(get_context_names(&config), names(&["a", "b"]));
    assert_eq!(config.clusters.len(), 2);
}

#[test]
fn test_delete_current_is_refused_without_switch() {
    let mut config = document(&["a", "b"]);
    let result = delete_context(&mut config, "a", Replacement::Refuse, true);
    assert!(matches!(result, Err(DeleteError::SwitchRefused)));
    assert_eq!(
        DeleteError::SwitchRefused.message(),
        "Cannot delete the current context without switching first"
    );
    assert_eq!(get_context_names(&config), names(&["a", "b"]));
    assert_eq!(config.current_context, "a");
    assert_eq!(config.clusters.len(), 2);
}

#[test]
fn test_delete_current_is_refused_for_unknown_replacement() {
    let mut config = document(&["a", "b"]);
    let result = delete_context(&mut config, "a", Replacement::Named("a".to_string()), false);
    match result {
        Err(DeleteError::ReplacementNotFound(name)) => assert_eq!(name, "a"),
        other => panic!("unexpected: {:?}", other),
    }
    assert_eq!(config.current_context, "a");
    assert_eq!(config.contexts.len(), 2);
    assert_eq!(
        DeleteError::ReplacementNotFound("q".to_string()).message(),
        "Context 'q' not found"
    );
}

#[test]
fn test_replacement_is_not_asked_for_other_contexts() {
    let mut config = document(&["a", "b"]);
    delete_context(&mut config, "b", Replacement::Refuse, false).unwrap();
    assert_eq!(config.current_context, "a");
    assert_eq!(get_context_names(&config), names(&["a"]));
}

#[test]
fn test_candidates_for_deleting_and_replacing() {
    let config = document(&["a", "b", "c"]);
    match delete_target(&config, None).unwrap() {
        DeleteTarget::Choose(all) => assert_eq!(all, names(&["a", "b", "c"])),
        other => panic!("unexpected: {:?}", other),
    }
    match delete_target(&config, Some("b".to_string())).unwrap() {
        DeleteTarget::Named(name) => assert_eq!(name, "b"),
        other => panic!("unexpected: {:?}", other),
    }
    match delete_target(&config, Some("z".to_string())) {
        Err(DeleteError::NotFound(name)) => assert_eq!(name, "z"),
        other => panic!("unexpected: {:?}", other),
    }
    assert_eq!(replacement_candidates(&config, "a"), names(&["b", "c"]));
    assert_eq!(replacement_candidates(&config, "b"), names(&[]));
    assert_eq!(replacement_candidates(&document(&["a"]), "a"), names(&[]));
}

#[test]
fn test_delete_all_contexts_one_after_the_other() {
    let mut config = document(&["ctx1", "ctx2", "ctx3"]);
    delete_context(&mut config, "ctx1", Replacement::Named("ctx2".to_string()), true).unwrap();
    delete_context(&mut config, "ctx3", Replacement::First, true).unwrap();
    assert_eq!(config.contexts.len(), 1);
    assert_eq!(config.contexts[0].name, "ctx2");
    assert_eq!(config.current_context, "ctx2");
    assert_eq!(get_cluster_names(&config), names(&["ctx2-cluster"]));
    assert_eq!(get_user_names(&config), names(&["ctx2-user"]));
}

#[test]
fn test_cleanup_removes_orphans_and_is_idempotent() {
    let mut config = document(&["a", "b", "c"]);
    delete_context(&mut config, "b", Replacement::First, false).unwrap();
    assert_eq!(config.clusters.len(), 3);

    let found = find_orphans(&config);
    assert_eq!(found.clusters, names(&["b-cluster"]));
    assert_eq!(found.users, names(&["b-user"]));
    assert!(!found.is_empty());
    assert_eq!(config.clusters.len(), 3);

    let removed = cleanup_orphans(&mut config);
    assert_eq!(removed.clusters, names(&["b-cluster"]));
    assert_eq!(removed.users, names(&["b-user"]));
    assert_eq!(get_cluster_names(&config), names(&["a-cluster", "c-cluster"]));
    assert_eq!(get_user_names(&config), names(&["a-user", "c-user"]));
    assert_eq!(get_context_names(&config), names(&["a", "c"]));
    assert_eq!(config.current_context, "a");

    let again = cleanup_orphans(&mut config);
    assert!(again.is_empty());
    assert_eq!(get_cluster_names(&config), names(&["a-cluster", "c-cluster"]));
    assert_eq!(get_user_names(&config), names(&["a-user", "c-user"]));
    assert!(find_orphans(&config).is_empty());
}

#[test]
fn test_cleanup_without_contexts_removes_everything() {
    let mut config = document(&["a", "b"]);
    config.contexts.clear();
    let removed = cleanup_orphans(&mut config);
    assert_eq!(removed.clusters, names(&["a-cluster", "b-cluster"]));
    assert_eq!(removed.users, names(&["a-user", "b-user"]));
    assert!(config.clusters.is_empty());
    assert!(config.users.is_empty());
}

#[test]
fn test_cleanup_tolerates_dangling_references() {
    let mut config = document(&["a"]);
    config.contexts[0].context.cluster = "missing".to_string();
    let removed = cleanup_orphans(&mut config);
    assert_eq!(removed.clusters, names(&["a-cluster"]));
    assert!(removed.users.is_empty());
    assert_eq!(config.contexts[0].context.cluster, "missing");
}
