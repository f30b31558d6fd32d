use khelp::config::kubernetes::{
    default_api_version, default_kind, AuthProviderConfig, ClusterData, ClusterEntry, ContextData,
    ContextEntry, EnvVar, ExecConfig, KubeConfig, Preferences, UserData, UserEntry,
};
use khelp::config::operations::{
    classify_parse_error, empty_config_message, judge_loaded, load_kube_config_from,
    load_kube_config_or_default, parse_failure_message, ParseFailure,
};
use khelp::test_utils::create_test_kube_config;

#[test]
fn test_kubeconfig_default() {
    let config = KubeConfig::default();

    assert_eq!(config.api_version, "v1");
    assert_eq!(config.kind, "Config");
    assert!(config.clusters.is_empty());
    assert!(config.contexts.is_empty());
    assert!(config.users.is_empty());
    assert!(config.current_context.is_empty());
}

#[test]
fn test_default_tags() {
    assert_eq!(default_api_version(), "v1");
    assert_eq!(default_kind(), "Config");
    assert!(KubeConfig::default().preferences.is_some());
}

#[test]
fn test_default_payloads_are_empty() {
    let cluster = ClusterData::default();
    assert_eq!(cluster.server, "");
    assert_eq!(cluster.certificate_authority_data, None);
    assert_eq!(cluster.insecure_skip_tls_verify, None);

    let user = UserData::default();
    assert_eq!(user.token, None);
    assert_eq!(user.username, None);
    assert!(user.exec_config.is_none());
    assert!(user.auth_provider.is_none());

    let plugin = ExecConfig::default();
    assert_eq!(plugin.api_version, "");
    assert_eq!(plugin.command, "");
    assert_eq!(plugin.args, None);
    assert!(plugin.env.is_none());

    let _ = Preferences::default();
}

#[test]
fn test_clone_keeps_every_field() {
    let mut config = create_test_kube_config();
    let mut settings = std::collections::HashMap::new();
    settings.insert("client-id".to_string(), "abc".to_string());
    config.users[0].user.auth_provider =
        Some(AuthProviderConfig { name: "oidc".to_string(), config: settings });
    config.users[0].user.impersonate_groups = Some(vec!["dev".to_string(), "ops".to_string()]);
    config.users[1].user.exec_config = Some(ExecConfig {
        api_version: "client.authentication.k8s.io/v1beta1".to_string(),
        command: "aws".to_string(),
        args: Some(vec!["eks".to_string(), "get-token".to_string()]),
        env: Some(vec![EnvVar { name: "AWS_PROFILE".to_string(), value: "default".to_string() }]),
        install_hint: None,
        provide_cluster_info: Some(true),
        interactive_mode: Some("Never".to_string()),
    });
    config.clusters[1].cluster.proxy_url = Some("http://proxy".to_string());

    let copy = config.clone();

    assert_eq!(format!("{:?}", copy), format!("{:?}", config));
    assert_eq!(copy.users[1].user.exec_config.as_ref().unwrap().command, "aws");
    assert_eq!(
        copy.users[1].user.exec_config.as_ref().unwrap().env.as_ref().unwrap()[0].name,
        "AWS_PROFILE"
    );
    assert_eq!(
        copy.users[0].user.auth_provider.as_ref().unwrap().config.get("client-id"),
        Some(&"abc".to_string())
    );
    assert_eq!(copy.clusters[1].cluster.proxy_url, Some("http://proxy".to_string()));
    assert_eq!(copy.current_context, "context1");
}

#[test]
fn test_clone_of_entries() {
    let cluster = ClusterEntry {
        name: "c".to_string(),
        cluster: ClusterData { server: "https://c".to_string(), ..ClusterData::default() },
    };
    let context = ContextEntry {
        name: "x".to_string(),
        context: ContextData {
            cluster: "c".to_string(),
            user: "u".to_string(),
            namespace: Some("ns".to_string()),
        },
    };
    let user = UserEntry {
        name: "u".to_string(),
        user: UserData { password: Some("secret".to_string()), ..UserData::default() },
    };
    assert_eq!(cluster.clone().cluster.server, "https://c");
    assert_eq!(context.clone().context.namespace, Some("ns".to_string()));
    assert_eq!(user.clone().user.password, Some("secret".to_string()));
}

#[test]
fn test_load_kube_config_from_empty_file() {
    let result = load_kube_config_from("/tmp/config", "", Err("EOF".to_string()));
    assert!(result.is_err(), "Should fail for empty file");
    let error_msg = result.unwrap_err();
    assert!(
        error_msg.contains("Config file is empty"),
        "Error should mention empty file: {}",
        error_msg
    );
    assert!(
        error_msg.contains("apiVersion"),
        "Error should provide guidance on required fields: {}",
        error_msg
    );
}

#[test]
fn test_load_kube_config_from_whitespace_only() {
    let result =
        load_kube_config_from("/tmp/config", "   \n\n  \t  \n", Ok(KubeConfig::default()));
    assert!(result.is_err(), "Should fail for whitespace-only file");
    let error_msg = result.unwrap_err();
    assert!(
        error_msg.contains("Config file is empty"),
        "Error should mention empty file: {}",
        error_msg
    );
}

#[test]
fn test_load_kube_config_from_invalid_yaml() {
    let content = "invalid: yaml: [content";
    let detail = serde_yaml::from_str::<serde_yaml::Value>(content).unwrap_err().to_string();
    let result = load_kube_config_from("/tmp/config", content, Err(detail));
    assert!(result.is_err(), "Should fail for invalid YAML");
    let error_msg = result.unwrap_err();
    assert!(
        error_msg.contains("Failed to parse kubeconfig file"),
        "Error should mention parse failure: {}",
        error_msg
    );
}

#[test]
fn test_empty_config_error_message() {
    let result = load_kube_config_from("/home/me/.kube/config", "", Err(String::new()));
    assert!(result.is_err());

    let error_msg = result.unwrap_err();
    assert!(error_msg.contains("Config file is empty"));
    assert!(error_msg.contains("apiVersion"));
    assert!(error_msg.contains("kind"));
}

#[test]
fn test_whitespace_only_config_error_message() {
    let result =
        load_kube_config_from("/home/me/.kube/config", "   \n\n  \t  \n", Err(String::new()));
    assert!(result.is_err());

    let error_msg = result.unwrap_err();
    assert!(
        error_msg.contains("Config file is empty"),
        "Whitespace-only should be treated as empty: {}",
        error_msg
    );
}

#[test]
fn test_load_hands_on_a_decoded_document() {
    let config = create_test_kube_config();
    let loaded = load_kube_config_from("p", "apiVersion: v1\n", Ok(config)).unwrap();
    assert_eq!(loaded.current_context, "context1");
    assert_eq!(loaded.contexts.len(), 2);
}

#[test]
fn test_empty_config_message_is_exact() {
    assert_eq!(
        empty_config_message("/x/config"),
        "Config file is empty: /x/config\n\nA valid kubeconfig file must contain at least:\n  apiVersion: v1\n  kind: Config\n  clusters: []\n  contexts: []\n  users: []\n  current-context: \"\""
    );
}

#[test]
fn test_parse_failures_are_sorted_by_what_is_missing() {
    assert_eq!(
        classify_parse_error("missing field `apiVersion` at line 1 column 5"),
        ParseFailure::MissingRequiredFields
    );
    assert_eq!(classify_parse_error("x: missing field `kind`"), ParseFailure::MissingRequiredFields);
    assert_eq!(
        classify_parse_error("clusters[0]: missing field `server`"),
        ParseFailure::MissingField
    );
    assert_eq!(classify_parse_error("did not find expected node"), ParseFailure::Malformed);
    assert_eq!(classify_parse_error(""), ParseFailure::Malformed);
    assert_eq!(classify_parse_error("missing fiel"), ParseFailure::Malformed);
}

#[test]
fn test_parse_failure_messages_are_exact() {
    assert_eq!(
        parse_failure_message("/c", "missing field `kind`"),
        "Invalid kubeconfig file: /c\n\nThe file appears to be missing required fields. A valid kubeconfig must include:\n  - apiVersion: v1\n  - kind: Config\n  - clusters, contexts, users arrays\n  - current-context\n\nOriginal error: missing field `kind`"
    );
    assert_eq!(
        parse_failure_message("/c", "missing field `server`"),
        "Invalid kubeconfig file: /c\n\nmissing field `server`\n\nPlease check that your kubeconfig file has all required fields."
    );
    assert_eq!(
        parse_failure_message("/c", "bad indentation"),
        "Failed to parse kubeconfig file: /c\n\nbad indentation"
    );
}

#[test]
fn test_load_or_default_recovers_from_missing_and_empty() {
    for message in [
        "Kubernetes config file not found at: /home/me/.kube/config",
        "Config file is empty: /home/me/.kube/config\n\nA valid kubeconfig",
    ] {
        let config = load_kube_config_or_default(Err(message.to_string())).unwrap();
        assert_eq!(config.api_version, "v1");
        assert_eq!(config.kind, "Config");
        assert!(config.contexts.is_empty());
        assert!(config.clusters.is_empty());
        assert!(config.users.is_empty());
        assert_eq!(config.current_context, "");
    }
}

#[test]
fn test_load_or_default_keeps_other_failures_and_documents() {
    let failure = load_kube_config_or_default(Err("Failed to read config file: /x".to_string()));
    assert_eq!(failure.unwrap_err(), "Failed to read config file: /x");

    let failure = load_kube_config_or_default(Err("Failed to parse kubeconfig file: /x\n\nbad".to_string()));
    assert_eq!(failure.unwrap_err(), "Failed to parse kubeconfig file: /x\n\nbad");

    let undecoded = parse_failure_message("/x", "users[0].user.exec: missing field `apiVersion`");
    assert!(undecoded.contains("missing required fields"));
    let failure = load_kube_config_or_default(Err(undecoded.clone()));
    assert_eq!(failure.unwrap_err(), undecoded);

    let failure = load_kube_config_or_default(Err("Could not find home directory".to_string()));
    assert_eq!(failure.unwrap_err(), "Could not find home directory");

    let loaded = load_kube_config_or_default(Ok(create_test_kube_config())).unwrap();
    assert_eq!(loaded.contexts.len(), 2);
    assert_eq!(loaded.current_context, "context1");
}

#[test]
fn test_judgement_on_a_loaded_file() {
    let empty = judge_loaded("/c", true, Ok(create_test_kube_config()));
    assert!(empty.unwrap_err().starts_with("Config file is empty: /c\n\n"));

    let undecoded = judge_loaded("/c", false, Err("missing field `name`".to_string()));
    assert!(undecoded.unwrap_err().starts_with("Invalid kubeconfig file: /c\n\nmissing field `name`"));

    let fine = judge_loaded("/c", false, Ok(create_test_kube_config())).unwrap();
    assert_eq!(fine.current_context, "context1");
}

#[test]
fn test_undecodable_file_is_never_taken_for_an_empty_one() {
    let content = "clusters: Config file is empty\n";
    let complaint =
        "clusters: invalid type: string \"Config file is empty\", expected a sequence at line 1";
    let loaded = load_kube_config_from(
        "/home/Kubernetes config file not found/config",
        content,
        Err(complaint.to_string()),
    );
    let message = loaded.unwrap_err();
    assert!(message.starts_with("Failed to parse kubeconfig file: "));
    assert!(message.contains("Config file is empty"));
    assert!(message.contains("Kubernetes config file not found"));
    let result = load_kube_config_or_default(Err(message.clone()));
    assert_eq!(result.unwrap_err(), message);

    let result = load_kube_config_or_default(Err("x Config file is empty: /c".to_string()));
    assert_eq!(result.unwrap_err(), "x Config file is empty: /c");
    let result = load_kube_config_or_default(Err("Config file is empty".to_string()));
    assert_eq!(result.unwrap_err(), "Config file is empty");
}

#[test]
fn test_empty_and_missing_files_give_the_empty_document() {
    let empty = load_kube_config_from("/c", " \n", Err("EOF".to_string())).unwrap_err();
    assert!(load_kube_config_or_default(Err(empty)).unwrap().contexts.is_empty());
    let missing = "Kubernetes config file not found at: /home/me/.kube/config".to_string();
    assert!(load_kube_config_or_default(Err(missing)).unwrap().clusters.is_empty());
}
