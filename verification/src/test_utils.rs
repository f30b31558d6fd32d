use crate::config::kubernetes::{
    ClusterData, ClusterDataView, ClusterEntry, ClusterView, ContextData, ContextDataView,
    ContextEntry, ContextView, KubeConfig, KubeConfigView, Preferences, UserData, UserDataView,
    UserEntry, UserView, default_api_version, default_kind,
};
use vstd::prelude::*;

verus! {

/// A cluster whose trust material is inline authority data.
pub open spec fn cluster_fixture(
    name: Seq<char>,
    server: Seq<char>,
    authority_data: Seq<char>,
    insecure: Option<bool>,
) -> ClusterView {
    ClusterView {
        name,
        cluster: ClusterDataView {
            certificate_authority_data: Some(authority_data),
            server,
            insecure_skip_tls_verify: insecure,
            ..ClusterDataView::empty()
        },
    }
}

/// A context that binds `cluster` and `user`.
pub open spec fn context_fixture(
    name: Seq<char>,
    cluster: Seq<char>,
    user: Seq<char>,
    namespace: Option<Seq<char>>,
) -> ContextView {
    ContextView { name, context: ContextDataView { cluster, user, namespace } }
}

/// A user who authenticates with an inline certificate and key.
pub open spec fn certificate_user_fixture(
    name: Seq<char>,
    certificate: Seq<char>,
    key: Seq<char>,
) -> UserView {
    UserView {
        name,
        user: UserDataView {
            client_certificate_data: Some(certificate),
            client_key_data: Some(key),
            ..UserDataView::empty()
        },
    }
}

/// A user who authenticates with a bearer token.
pub open spec fn token_user_fixture(name: Seq<char>, token: Seq<char>) -> UserView {
    UserView { name, user: UserDataView { token: Some(token), ..UserDataView::empty() } }
}

/// The document that `create_test_kube_config` builds: two clusters, two
/// users, two contexts that bind them pairwise, the first context selected.
pub open spec fn test_kube_config_view() -> KubeConfigView {
    KubeConfigView {
        current_context: "context1"@,
        clusters: seq![
            cluster_fixture(
                "cluster1"@,
                "https://cluster1.example.com"@,
                "LS0tLS1CRUdJTi..."@,
                Some(false),
            ),
            cluster_fixture(
                "cluster2"@,
                "https://cluster2.example.com"@,
                "LS0tLS1CRUdJTi..."@,
                None,
            ),
        ],
        contexts: seq![
            context_fixture("context1"@, "cluster1"@, "user1"@, Some("default"@)),
            context_fixture("context2"@, "cluster2"@, "user2"@, None),
        ],
        users: seq![
            certificate_user_fixture("user1"@, "LS0tLS1CRUdJTi..."@, "LS0tLS1CRUdJTi..."@),
            token_user_fixture("user2"@, "eyJhbGciOiJSUzI1NiIsImtpZCI6IiJ9..."@),
        ],
        ..KubeConfigView::empty()
    }
}

/// The document that `create_minimal_test_kube_config` builds: one cluster,
/// one user, one context that binds them and is selected.
pub open spec fn minimal_test_kube_config_view() -> KubeConfigView {
    KubeConfigView {
        current_context: "test-context"@,
        clusters: seq![
            cluster_fixture(
                "test-cluster"@,
                "https://test.example.com"@,
                "test-cert-data"@,
                None,
            ),
        ],
        contexts: seq![
            context_fixture(
                "test-context"@,
                "test-cluster"@,
                "test-user"@,
                Some("test-namespace"@),
            ),
        ],
        users: seq![
            certificate_user_fixture("test-user"@, "test-client-cert"@, "test-client-key"@),
        ],
        ..KubeConfigView::empty()
    }
}

/// Builds a cluster whose trust material is inline authority data.
fn make_cluster(name: &str, server: &str, authority_data: &str, insecure: Option<bool>) -> (r:
    ClusterEntry)
    ensures
        r@ == cluster_fixture(name@, server@, authority_data@, insecure),
{
    let mut cluster = ClusterData::default();
    cluster.certificate_authority_data = Some(authority_data.to_string());
    cluster.server = server.to_string();
    cluster.insecure_skip_tls_verify = insecure;
    ClusterEntry { name: name.to_string(), cluster }
}

/// Builds a context that binds `cluster` and `user`.
fn make_context(name: &str, cluster: &str, user: &str, namespace: Option<&str>) -> (r:
    ContextEntry)
    ensures
        r@ == context_fixture(
            name@,
            cluster@,
            user@,
            match namespace {
                Some(n) => Some(n@),
                None => None,
            },
        ),
{
    let namespace = match namespace {
        Some(n) => Some(n.to_string()),
        None => None,
    };
    ContextEntry {
        name: name.to_string(),
        context: ContextData { cluster: cluster.to_string(), user: user.to_string(), namespace },
    }
}

/// Builds a user who authenticates with an inline certificate and key.
fn make_certificate_user(name: &str, certificate: &str, key: &str) -> (r: UserEntry)
    ensures
        r@ == certificate_user_fixture(name@, certificate@, key@),
{
    let mut user = UserData::default();
    user.client_certificate_data = Some(certificate.to_string());
    user.client_key_data = Some(key.to_string());
    UserEntry { name: name.to_string(), user }
}

/// Builds a user who authenticates with a bearer token.
fn make_token_user(name: &str, token: &str) -> (r: UserEntry)
    ensures
        r@ == token_user_fixture(name@, token@),
{
    let mut user = UserData::default();
    user.token = Some(token.to_string());
    UserEntry { name: name.to_string(), user }
}

/// Builds a document with two contexts, for trying operations out.
pub fn create_test_kube_config() -> (r: KubeConfig)
    ensures
        r@ == test_kube_config_view(),
{
    let mut clusters: Vec<ClusterEntry> = Vec::new();
    clusters.push(
        make_cluster(
            "cluster1",
            "https://cluster1.example.com",
            "LS0tLS1CRUdJTi...",
            Some(false),
        ),
    );
    clusters.push(
        make_cluster("cluster2", "https://cluster2.example.com", "LS0tLS1CRUdJTi...", None),
    );
    let mut contexts: Vec<ContextEntry> = Vec::new();
    contexts.push(make_context("context1", "cluster1", "user1", Some("default")));
    contexts.push(make_context("context2", "cluster2", "user2", None));
    let mut users: Vec<UserEntry> = Vec::new();
    users.push(make_certificate_user("user1", "LS0tLS1CRUdJTi...", "LS0tLS1CRUdJTi..."));
    users.push(make_token_user("user2", "eyJhbGciOiJSUzI1NiIsImtpZCI6IiJ9..."));
    proof {
        let want = test_kube_config_view();
        assert(clusters.deep_view() =~= want.clusters);
        assert(contexts.deep_view() =~= want.contexts);
        assert(users.deep_view() =~= want.users);
    }
    KubeConfig {
        api_version: default_api_version(),
        clusters,
        contexts,
        current_context: "context1".to_string(),
        kind: default_kind(),
        preferences: Some(Preferences {  }),
        users,
    }
}

/// Builds a document with a single context, for trying operations out.
pub fn create_minimal_test_kube_config() -> (r: KubeConfig)
    ensures
        r@ == minimal_test_kube_config_view(),
{
    let mut clusters: Vec<ClusterEntry> = Vec::new();
    clusters.push(
        make_cluster("test-cluster", "https://test.example.com", "test-cert-data", None),
    );
    let mut contexts: Vec<ContextEntry> = Vec::new();
    contexts.push(
        make_context("test-context", "test-cluster", "test-user", Some("test-namespace")),
    );
    let mut users: Vec<UserEntry> = Vec::new();
    users.push(make_certificate_user("test-user", "test-client-cert", "test-client-key"));
    proof {
        let want = minimal_test_kube_config_view();
        assert(clusters.deep_view() =~= want.clusters);
        assert(contexts.deep_view() =~= want.contexts);
        assert(users.deep_view() =~= want.users);
    }
    KubeConfig {
        api_version: default_api_version(),
        clusters,
        contexts,
        current_context: "test-context".to_string(),
        kind: default_kind(),
        preferences: Some(Preferences {  }),
        users,
    }
}

} // verus!
