use khelp::commands::add::{
    add_context, ensure_importable, find_available_name, get_cluster_names, get_context_names,
    get_user_names, judge_import, load_external_config, AddError, EntryKind, ImportSummary, SummaryAction,
};
use khelp::config::kubernetes::{
    ClusterData, ClusterEntry, ContextData, ContextEntry, KubeConfig, UserData, UserEntry,
};

fn cluster(name: &str, server: &str) -> ClusterEntry {
    let mut data = ClusterData::default();
    data.server = server.to_string();
    ClusterEntry { name: name.to_string(), cluster: data }
}

fn user(name: &str, token: &str) -> UserEntry {
    let mut data = UserData::default();
    data.token = Some(token.to_string());
    UserEntry { name: name.to_string(), user: data }
}

fn context(name: &str, cluster: &str, user: &str) -> ContextEntry {
    ContextEntry {
        name: name.to_string(),
        context: ContextData {
            cluster: cluster.to_string(),
            user: user.to_string(),
            namespace: None,
        },
    }
}

fn document(names: &[&str], origin: &str) -> KubeConfig {
    let mut config = KubeConfig::default();
    for name in names {
        config.clusters.push(cluster(
            &format!("{}-cluster", name),
            &format!("https://{}.{}.com:6443", name, origin),
        ));
        config.users.push(user(&format!("{}-user", name), &format!("{}-token", origin)));
        config.contexts.push(context(
            name,
            &format!("{}-cluster", name),
            &format!("{}-user", name),
        ));
    }
    if let Some(first) = names.first() {
        config.current_context = first.to_string();
    }
    config
}

fn names(items: &[&str]) -> Vec<String> {
    items.iter().map(|s| s.to_string()).collect()
}

#[test]
fn test_import_summary_starts_without_changes() {
    let summary = ImportSummary::new();
    assert!(!summary.has_changes());
    assert!(summary.contexts_added.is_empty());
    assert!(summary.clusters_skipped.is_empty());
    assert!(summary.users_overwritten.is_empty());
}

#[test]
fn test_import_summary_has_changes_for_each_kind() {
    let mut summary = ImportSummary::new();
    summary.contexts_skipped.push("a".to_string());
    summary.clusters_skipped.push("a".to_string());
    summary.users_skipped.push("a".to_string());
    assert!(!summary.has_changes());

    let mut summary = ImportSummary::new();
    summary.users_added.push("a".to_string());
    assert!(summary.has_changes());

    let mut summary = ImportSummary::new();
    summary.clusters_overwritten.push("a".to_string());
    assert!(summary.has_changes());

    let mut summary = ImportSummary::new();
    summary.contexts_added.push("a".to_string());
    assert!(summary.has_changes());
}

#[test]
fn test_find_available_name_takes_first_free_suffix() {
    assert_eq!(find_available_name("dev", &names(&["dev"])), "dev-imported");
    assert_eq!(find_available_name("dev", &names(&[])), "dev-imported");
    assert_eq!(
        find_available_name("dev", &names(&["dev", "dev-imported"])),
        "dev-imported-2"
    );
    assert_eq!(
        find_available_name("dev", &names(&["dev-imported-2", "dev", "dev-imported"])),
        "dev-imported-3"
    );
    assert_eq!(
        find_available_name("dev", &names(&["dev-imported-2", "dev"])),
        "dev-imported"
    );
}

#[test]
fn test_find_available_name_counts_past_nine() {
    let mut taken = names(&["x", "x-imported"]);
    for k in 2..=11 {
        taken.push(format!("x-imported-{}", k));
    }
    assert_eq!(find_available_name("x", &taken), "x-imported-12");
    for k in 12..=100 {
        taken.push(format!("x-imported-{}", k));
    }
    assert_eq!(find_available_name("x", &taken), "x-imported-101");
}

#[test]
fn test_names_are_listed_in_document_order() {
    let config = document(&["dev", "staging"], "main");
    assert_eq!(get_cluster_names(&config), names(&["dev-cluster", "staging-cluster"]));
    assert_eq!(get_user_names(&config), names(&["dev-user", "staging-user"]));
    assert_eq!(get_context_names(&config), names(&["dev", "staging"]));
}

#[test]
fn test_import_new_names_appends_each_once() {
    let mut main = document(&["alpha", "beta"], "main");
    let external = document(&["gamma", "delta"], "external");

    let outcome = add_context(&mut main, external, false, false, false).unwrap();

    assert_eq!(get_context_names(&main), names(&["alpha", "beta", "gamma", "delta"]));
    assert_eq!(
        get_cluster_names(&main),
        names(&["alpha-cluster", "beta-cluster", "gamma-cluster", "delta-cluster"])
    );
    assert_eq!(
        get_user_names(&main),
        names(&["alpha-user", "beta-user", "gamma-user", "delta-user"])
    );
    assert_eq!(main.clusters[0].cluster.server, "https://alpha.main.com:6443");
    assert_eq!(main.clusters[2].cluster.server, "https://gamma.external.com:6443");
    assert_eq!(main.users[3].user.token, Some("external-token".to_string()));
    assert_eq!(main.contexts[3].context.cluster, "delta-cluster");
    assert_eq!(main.current_context, "alpha");
    assert_eq!(outcome.summary.contexts_added, names(&["gamma", "delta"]));
    assert_eq!(outcome.summary.clusters_added, names(&["gamma-cluster", "delta-cluster"]));
    assert_eq!(outcome.summary.users_added, names(&["gamma-user", "delta-user"]));
    assert!(outcome.summary.contexts_skipped.is_empty());
    assert!(outcome.summary.contexts_overwritten.is_empty());
    assert!(outcome.summary.has_changes());
    assert_eq!(outcome.first_context, Some("gamma".to_string()));
    assert!(!outcome.switched);
}

#[test]
fn test_import_colliding_names_without_policy_changes_nothing() {
    let mut main = document(&["alpha", "beta"], "main");
    let external = document(&["beta", "alpha"], "external");

    let outcome = add_context(&mut main, external, false, false, true).unwrap();

    assert_eq!(get_context_names(&main), names(&["alpha", "beta"]));
    assert_eq!(get_cluster_names(&main), names(&["alpha-cluster", "beta-cluster"]));
    assert_eq!(get_user_names(&main), names(&["alpha-user", "beta-user"]));
    assert_eq!(main.clusters[0].cluster.server, "https://alpha.main.com:6443");
    assert_eq!(main.clusters[1].cluster.server, "https://beta.main.com:6443");
    assert_eq!(main.users[0].user.token, Some("main-token".to_string()));
    assert_eq!(main.current_context, "alpha");
    assert!(!outcome.summary.has_changes());
    assert_eq!(outcome.summary.contexts_skipped, names(&["beta", "alpha"]));
    assert_eq!(outcome.summary.clusters_skipped, names(&["beta-cluster", "alpha-cluster"]));
    assert_eq!(outcome.summary.users_skipped, names(&["beta-user", "alpha-user"]));
    assert_eq!(outcome.first_context, None);
    assert!(!outcome.switched);
}

#[test]
fn test_import_with_rename_keeps_both_and_rewrites_references() {
    let mut main = document(&["alpha", "beta"], "main");
    let external = document(&["alpha"], "external");

    let outcome = add_context(&mut main, external, true, false, false).unwrap();

    assert_eq!(get_context_names(&main), names(&["alpha", "beta", "alpha-imported"]));
    assert_eq!(
        get_cluster_names(&main),
        names(&["alpha-cluster", "beta-cluster", "alpha-cluster-imported"])
    );
    assert_eq!(
        get_user_names(&main),
        names(&["alpha-user", "beta-user", "alpha-user-imported"])
    );
    assert_eq!(main.contexts[0].context.cluster, "alpha-cluster");
    assert_eq!(main.contexts[0].context.user, "alpha-user");
    assert_eq!(main.contexts[2].context.cluster, "alpha-cluster-imported");
    assert_eq!(main.contexts[2].context.user, "alpha-user-imported");
    assert_eq!(main.clusters[0].cluster.server, "https://alpha.main.com:6443");
    assert_eq!(main.clusters[2].cluster.server, "https://alpha.external.com:6443");
    assert_eq!(main.current_context, "alpha");
    assert_eq!(outcome.summary.contexts_added, names(&["alpha-imported"]));
    assert_eq!(outcome.summary.clusters_added, names(&["alpha-cluster-imported"]));
    assert_eq!(outcome.summary.users_added, names(&["alpha-user-imported"]));
    assert_eq!(outcome.first_context, Some("alpha-imported".to_string()));
}

#[test]
fn test_import_with_rename_and_switch_selects_imported_context() {
    let mut main = document(&["alpha", "beta"], "main");
    let external = document(&["alpha"], "external");

    let outcome = add_context(&mut main, external, true, false, true).unwrap();

    assert_eq!(get_context_names(&main), names(&["alpha", "beta", "alpha-imported"]));
    assert_eq!(main.current_context, "alpha-imported");
    assert!(outcome.switched);
}

#[test]
fn test_import_with_rename_twice_counts_up() {
    let mut main = document(&["alpha"], "main");

    add_context(&mut main, document(&["alpha"], "second"), true, false, false).unwrap();
    add_context(&mut main, document(&["alpha"], "third"), true, false, false).unwrap();

    assert_eq!(
        get_context_names(&main),
        names(&["alpha", "alpha-imported", "alpha-imported-2"])
    );
    assert_eq!(main.contexts[2].context.cluster, "alpha-cluster-imported-2");
    assert_eq!(main.clusters[2].cluster.server, "https://alpha.third.com:6443");
}

#[test]
fn test_import_rewrites_reference_only_to_renamed_entries() {
    let mut main = document(&["alpha"], "main");
    let mut external = KubeConfig::default();
    external.clusters.push(cluster("alpha-cluster", "https://other"));
    external.users.push(user("fresh-user", "t"));
    external.contexts.push(context("gamma", "alpha-cluster", "fresh-user"));
    external.contexts.push(context("delta", "absent-cluster", "alpha-user"));

    add_context(&mut main, external, true, false, false).unwrap();

    assert_eq!(get_cluster_names(&main), names(&["alpha-cluster", "alpha-cluster-imported"]));
    assert_eq!(get_user_names(&main), names(&["alpha-user", "fresh-user"]));
    assert_eq!(main.contexts[1].name, "gamma");
    assert_eq!(main.contexts[1].context.cluster, "alpha-cluster-imported");
    assert_eq!(main.contexts[1].context.user, "fresh-user");
    assert_eq!(main.contexts[2].name, "delta");
    assert_eq!(main.contexts[2].context.cluster, "absent-cluster");
    assert_eq!(main.contexts[2].context.user, "alpha-user");
}

#[test]
fn test_import_skipped_cluster_leaves_reference_alone() {
    let mut main = document(&["alpha"], "main");
    let mut external = KubeConfig::default();
    external.clusters.push(cluster("alpha-cluster", "https://other"));
    external.users.push(user("alpha-user", "t"));
    external.contexts.push(context("gamma", "alpha-cluster", "alpha-user"));

    let outcome = add_context(&mut main, external, false, false, false).unwrap();

    assert_eq!(get_cluster_names(&main), names(&["alpha-cluster"]));
    assert_eq!(main.clusters[0].cluster.server, "https://alpha.main.com:6443");
    assert_eq!(main.contexts[1].name, "gamma");
    assert_eq!(main.contexts[1].context.cluster, "alpha-cluster");
    assert_eq!(outcome.summary.clusters_skipped, names(&["alpha-cluster"]));
    assert_eq!(outcome.summary.contexts_added, names(&["gamma"]));
}

#[test]
fn test_import_with_overwrite_replaces_in_place() {
    let mut main = document(&["alpha", "beta", "gamma"], "main");
    let external = document(&["beta"], "external");

    let outcome = add_context(&mut main, external, false, true, true).unwrap();

    assert_eq!(get_context_names(&main), names(&["alpha", "beta", "gamma"]));
    assert_eq!(
        get_cluster_names(&main),
        names(&["alpha-cluster", "beta-cluster", "gamma-cluster"])
    );
    assert_eq!(main.clusters.len(), 3);
    assert_eq!(main.clusters[1].cluster.server, "https://beta.external.com:6443");
    assert_eq!(main.clusters[0].cluster.server, "https://alpha.main.com:6443");
    assert_eq!(main.users[1].user.token, Some("external-token".to_string()));
    assert_eq!(outcome.summary.contexts_overwritten, names(&["beta"]));
    assert_eq!(outcome.summary.clusters_overwritten, names(&["beta-cluster"]));
    assert_eq!(outcome.summary.users_overwritten, names(&["beta-user"]));
    assert!(outcome.summary.contexts_added.is_empty());
    assert_eq!(main.current_context, "beta");
    assert!(outcome.switched);
}

#[test]
fn test_import_overwrite_goes_before_rename() {
    let mut main = document(&["alpha"], "main");
    let external = document(&["alpha", "beta"], "external");

    let outcome = add_context(&mut main, external, true, true, false).unwrap();

    assert_eq!(get_context_names(&main), names(&["alpha", "beta"]));
    assert_eq!(main.clusters[0].cluster.server, "https://alpha.external.com:6443");
    assert_eq!(outcome.summary.contexts_overwritten, names(&["alpha"]));
    assert_eq!(outcome.summary.contexts_added, names(&["beta"]));
    assert_eq!(outcome.first_context, Some("alpha".to_string()));
}

#[test]
fn test_import_duplicate_incoming_names_collide_with_each_other() {
    let mut main = KubeConfig::default();
    let mut external = KubeConfig::default();
    external.clusters.push(cluster("c", "https://first"));
    external.clusters.push(cluster("c", "https://second"));

    let outcome = add_context(&mut main, external, true, false, false).unwrap();

    assert_eq!(get_cluster_names(&main), names(&["c", "c-imported"]));
    assert_eq!(main.clusters[1].cluster.server, "https://second");
    assert_eq!(outcome.summary.clusters_added, names(&["c", "c-imported"]));
}

#[test]
fn test_import_makes_up_context_from_current_context() {
    let mut main = KubeConfig::default();
    let mut external = KubeConfig::default();
    external.clusters.push(cluster("sandbox", "https://sandbox"));
    external.clusters.push(cluster("other", "https://other"));
    external.users.push(user("admin", "t"));
    external.current_context = "sandbox-context".to_string();

    let outcome = add_context(&mut main, external, false, false, true).unwrap();

    assert_eq!(main.contexts.len(), 1);
    assert_eq!(main.contexts[0].name, "sandbox-context");
    assert_eq!(main.contexts[0].context.cluster, "sandbox");
    assert_eq!(main.contexts[0].context.user, "admin");
    assert_eq!(main.contexts[0].context.namespace, Some("default".to_string()));
    assert_eq!(main.current_context, "sandbox-context");
    assert_eq!(outcome.summary.contexts_added, names(&["sandbox-context"]));
}

#[test]
fn test_import_makes_up_no_context_without_user_or_current() {
    let mut main = KubeConfig::default();
    let mut external = KubeConfig::default();
    external.clusters.push(cluster("sandbox", "https://sandbox"));
    external.current_context = "sandbox-context".to_string();
    let outcome = add_context(&mut main, external, false, false, true).unwrap();
    assert!(main.contexts.is_empty());
    assert_eq!(get_cluster_names(&main), names(&["sandbox"]));
    assert_eq!(main.current_context, "");
    assert!(!outcome.switched);

    let mut main = KubeConfig::default();
    let mut external = KubeConfig::default();
    external.clusters.push(cluster("sandbox", "https://sandbox"));
    external.users.push(user("admin", "t"));
    add_context(&mut main, external, false, false, false).unwrap();
    assert!(main.contexts.is_empty());
}

#[test]
fn test_import_of_empty_document_is_refused() {
    let mut main = document(&["alpha"], "main");
    let mut external = KubeConfig::default();
    external.current_context = "ghost".to_string();

    assert!(matches!(ensure_importable(&external), Err(AddError::NothingToImport)));
    assert!(ensure_importable(&main).is_ok());
    let result = add_context(&mut main, external, true, true, true);

    assert!(matches!(result, Err(AddError::NothingToImport)));
    assert_eq!(get_context_names(&main), names(&["alpha"]));
    assert_eq!(main.current_context, "alpha");
}

#[test]
fn test_import_into_empty_main_document() {
    let mut main = KubeConfig::default();
    let external = document(&["external"], "external");

    add_context(&mut main, external, false, false, true).unwrap();

    assert_eq!(main.contexts.len(), 1);
    assert_eq!(main.contexts[0].name, "external");
    assert_eq!(main.current_context, "external");
    assert_eq!(main.api_version, "v1");
    assert_eq!(main.kind, "Config");
}

#[test]
fn test_summary_lines_come_in_fixed_order() {
    let mut summary = ImportSummary::new();
    summary.users_skipped = names(&["u1"]);
    summary.contexts_added = names(&["a", "b", "c"]);
    summary.clusters_overwritten = names(&["x", "y"]);
    summary.users_added = names(&["u2"]);
    summary.contexts_skipped = names(&["s"]);

    let lines = summary.lines();

    let shown: Vec<(SummaryAction, EntryKind, &str)> =
        lines.iter().map(|l| (l.action, l.kind, l.names.as_str())).collect();
    assert_eq!(
        shown,
        vec![
            (SummaryAction::Added, EntryKind::Context, "a, b, c"),
            (SummaryAction::Added, EntryKind::User, "u2"),
            (SummaryAction::Overwritten, EntryKind::Cluster, "x, y"),
            (SummaryAction::Skipped, EntryKind::Context, "s"),
            (SummaryAction::Skipped, EntryKind::User, "u1"),
        ]
    );
    assert!(ImportSummary::new().lines().is_empty());
}

#[test]
fn test_summary_lines_of_an_import() {
    let mut main = document(&["alpha"], "main");
    let external = document(&["alpha", "beta"], "external");
    let outcome = add_context(&mut main, external, false, false, false).unwrap();
    let lines = outcome.summary.lines();
    assert_eq!(lines.len(), 6);
    assert_eq!(lines[0].names, "beta");
    assert_eq!(lines[1].names, "beta-cluster");
    assert_eq!(lines[2].names, "beta-user");
    assert_eq!(lines[3].action, SummaryAction::Skipped);
    assert_eq!(lines[3].names, "alpha");
    assert_eq!(lines[5].kind, EntryKind::User);
}

#[test]
fn test_nothing_to_import_message() {
    assert_eq!(
        AddError::NothingToImport.message(),
        "External kubeconfig contains no contexts, clusters, or users to import"
    );
}

#[test]
fn test_external_file_is_judged() {
    let empty = load_external_config("/in.yaml", " \n\t", Ok(KubeConfig::default()));
    assert_eq!(
        empty.unwrap_err(),
        "Config file is empty: /in.yaml\n\nThe kubeconfig file you're trying to add contains no data."
    );

    let missing_tag = load_external_config("/in.yaml", "x", Err("missing field `apiVersion`".to_string()));
    assert_eq!(
        missing_tag.unwrap_err(),
        "Invalid kubeconfig file: /in.yaml\n\nThe file appears to be missing required fields (apiVersion, kind).\n\nOriginal error: missing field `apiVersion`"
    );

    let missing_field = load_external_config("/in.yaml", "x", Err("missing field `name`".to_string()));
    assert_eq!(
        missing_field.unwrap_err(),
        "Invalid kubeconfig file: /in.yaml\n\nmissing field `name`\n\nPlease check that your kubeconfig file has all required fields."
    );

    let malformed = load_external_config("/in.yaml", "x", Err("mapping values are not allowed".to_string()));
    assert_eq!(
        malformed.unwrap_err(),
        "Failed to parse kubeconfig file: /in.yaml\n\nmapping values are not allowed"
    );

    let fine = load_external_config("/in.yaml", "kind: Config", Ok(document(&["a"], "x"))).unwrap();
    assert_eq!(fine.contexts.len(), 1);
}

#[test]
fn test_import_of_colliding_context_alone_with_rename() {
    let mut external = KubeConfig::default();
    external.contexts.push(context("alpha", "alpha-cluster", "alpha-user"));

    let mut main = document(&["alpha", "beta"], "main");
    let outcome = add_context(&mut main, external.clone(), true, false, false).unwrap();
    assert_eq!(get_context_names(&main), names(&["alpha", "beta", "alpha-imported"]));
    assert_eq!(main.current_context, "alpha");
    assert_eq!(main.contexts[2].context.cluster, "alpha-cluster");
    assert_eq!(main.clusters.len(), 2);
    assert_eq!(main.users.len(), 2);
    assert!(!outcome.switched);

    let mut main = document(&["alpha", "beta"], "main");
    let outcome = add_context(&mut main, external, true, false, true).unwrap();
    assert_eq!(get_context_names(&main), names(&["alpha", "beta", "alpha-imported"]));
    assert_eq!(main.current_context, "alpha-imported");
    assert!(outcome.switched);
}

#[test]
fn test_judgement_on_an_incoming_file() {
    let empty = judge_import("/in", true, Ok(KubeConfig::default()));
    assert!(empty.unwrap_err().starts_with("Config file is empty: /in\n\nThe kubeconfig file"));

    let undecoded = judge_import("/in", false, Err("oops".to_string()));
    assert_eq!(undecoded.unwrap_err(), "Failed to parse kubeconfig file: /in\n\noops");

    let fine = judge_import("/in", false, Ok(document(&["a", "b"], "x"))).unwrap();
    assert_eq!(fine.contexts.len(), 2);
}

#[test]
fn test_import_with_overwrite_of_several_entries() {
    let mut main = document(&["a", "b", "c"], "main");
    let external = document(&["z", "c", "a"], "external");

    let outcome = add_context(&mut main, external, false, true, false).unwrap();

    assert_eq!(get_context_names(&main), names(&["a", "b", "c", "z"]));
    assert_eq!(main.clusters[0].cluster.server, "https://a.external.com:6443");
    assert_eq!(main.clusters[1].cluster.server, "https://b.main.com:6443");
    assert_eq!(main.clusters[2].cluster.server, "https://c.external.com:6443");
    assert_eq!(main.clusters[3].cluster.server, "https://z.external.com:6443");
    assert_eq!(main.contexts[0].context.cluster, "a-cluster");
    assert_eq!(outcome.summary.contexts_overwritten, names(&["c", "a"]));
    assert_eq!(outcome.summary.contexts_added, names(&["z"]));
    assert_eq!(outcome.first_context, Some("z".to_string()));
}

#[test]
fn test_import_with_rename_adds_every_incoming_entry() {
    let mut main = document(&["a", "b"], "main");
    let external = document(&["b", "n", "a"], "external");

    add_context(&mut main, external, true, false, false).unwrap();

    assert_eq!(main.contexts.len(), 5);
    assert_eq!(
        get_context_names(&main),
        names(&["a", "b", "b-imported", "n", "a-imported"])
    );
    assert_eq!(
        get_cluster_names(&main),
        names(&["a-cluster", "b-cluster", "b-cluster-imported", "n-cluster", "a-cluster-imported"])
    );
    assert_eq!(main.contexts[2].context.cluster, "b-cluster-imported");
    assert_eq!(main.contexts[2].context.user, "b-user-imported");
    assert_eq!(main.contexts[3].context.cluster, "n-cluster");
    assert_eq!(main.contexts[4].context.user, "a-user-imported");
    assert_eq!(main.contexts[0].context.cluster, "a-cluster");
    assert_eq!(main.clusters[0].cluster.server, "https://a.main.com:6443");
    assert_eq!(main.clusters[4].cluster.server, "https://a.external.com:6443");
}

#[test]
fn test_import_without_policy_adds_only_new_names() {
    let mut main = document(&["a", "b"], "main");
    let external = document(&["b", "n", "a", "m"], "external");

    let outcome = add_context(&mut main, external, false, false, true).unwrap();

    assert_eq!(get_context_names(&main), names(&["a", "b", "n", "m"]));
    assert_eq!(main.clusters[1].cluster.server, "https://b.main.com:6443");
    assert_eq!(outcome.summary.contexts_skipped, names(&["b", "a"]));
    assert_eq!(main.current_context, "n");
}
