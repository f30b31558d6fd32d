use std::collections::HashMap;
use vstd::prelude::*;

verus! {

/// The version tag written into a document that does not name one.
pub fn default_api_version() -> (r: String)
    ensures
        r@ == "v1"@,
{
    "v1".to_string()
}

/// The type tag written into a document that does not name one.
pub fn default_kind() -> (r: String)
    ensures
        r@ == "Config"@,
{
    "Config".to_string()
}

/// The empty preferences object of a configuration document.
#[derive(Debug)]
pub struct Preferences {}

/// One environment variable handed to a credential plugin.
#[derive(Debug)]
pub struct EnvVar {
    pub name: String,
    pub value: String,
}

/// What an `EnvVar` holds.
pub struct EnvVarView {
    pub name: Seq<char>,
    pub value: Seq<char>,
}

/// An external credential plugin: the command to run and how to run it.
#[derive(Debug)]
pub struct ExecConfig {
    pub api_version: String,
    pub command: String,
    pub args: Option<Vec<String>>,
    pub env: Option<Vec<EnvVar>>,
    pub install_hint: Option<String>,
    pub provide_cluster_info: Option<bool>,
    pub interactive_mode: Option<String>,
}

/// What an `ExecConfig` holds.
pub struct ExecConfigView {
    pub api_version: Seq<char>,
    pub command: Seq<char>,
    pub args: Option<Seq<Seq<char>>>,
    pub env: Option<Seq<EnvVarView>>,
    pub install_hint: Option<Seq<char>>,
    pub provide_cluster_info: Option<bool>,
    pub interactive_mode: Option<Seq<char>>,
}

/// A named authentication provider with its free-form settings.
#[derive(Debug)]
pub struct AuthProviderConfig {
    pub name: String,
    pub config: HashMap<String, String>,
}

/// What an `AuthProviderConfig` holds.
pub struct AuthProviderConfigView {
    pub name: Seq<char>,
    pub config: Map<String, String>,
}

/// The credentials of a user entry.
#[derive(Debug)]
pub struct UserData {
    pub client_certificate_data: Option<String>,
    pub client_certificate: Option<String>,
    pub client_key_data: Option<String>,
    pub client_key: Option<String>,
    pub token: Option<String>,
    pub token_file: Option<String>,
    pub impersonate: Option<String>,
    pub impersonate_uid: Option<String>,
    pub impersonate_groups: Option<Vec<String>>,
    pub username: Option<String>,
    pub password: Option<String>,
    pub auth_provider: Option<AuthProviderConfig>,
    pub exec_config: Option<ExecConfig>,
}

/// What a `UserData` holds.
pub struct UserDataView {
    pub client_certificate_data: Option<Seq<char>>,
    pub client_certificate: Option<Seq<char>>,
    pub client_key_data: Option<Seq<char>>,
    pub client_key: Option<Seq<char>>,
    pub token: Option<Seq<char>>,
    pub token_file: Option<Seq<char>>,
    pub impersonate: Option<Seq<char>>,
    pub impersonate_uid: Option<Seq<char>>,
    pub impersonate_groups: Option<Seq<Seq<char>>>,
    pub username: Option<Seq<char>>,
    pub password: Option<Seq<char>>,
    pub auth_provider: Option<AuthProviderConfigView>,
    pub exec_config: Option<ExecConfigView>,
}

/// A user entry: a unique name and the credentials it stands for.
#[derive(Debug)]
pub struct UserEntry {
    pub name: String,
    pub user: UserData,
}

/// What a `UserEntry` holds.
pub struct UserView {
    pub name: Seq<char>,
    pub user: UserDataView,
}

/// The connection data of a cluster entry.
#[derive(Debug)]
pub struct ClusterData {
    pub certificate_authority_data: Option<String>,
    pub certificate_authority: Option<String>,
    pub server: String,
    pub insecure_skip_tls_verify: Option<bool>,
    pub tls_server_name: Option<String>,
    pub proxy_url: Option<String>,
    pub disable_compression: Option<bool>,
}

/// What a `ClusterData` holds.
pub struct ClusterDataView {
    pub certificate_authority_data: Option<Seq<char>>,
    pub certificate_authority: Option<Seq<char>>,
    pub server: Seq<char>,
    pub insecure_skip_tls_verify: Option<bool>,
    pub tls_server_name: Option<Seq<char>>,
    pub proxy_url: Option<Seq<char>>,
    pub disable_compression: Option<bool>,
}

/// A cluster entry: a unique name and the endpoint it stands for.
#[derive(Debug)]
pub struct ClusterEntry {
    pub cluster: ClusterData,
    pub name: String,
}

/// What a `ClusterEntry` holds.
pub struct ClusterView {
    pub cluster: ClusterDataView,
    pub name: Seq<char>,
}

/// What a context binds together: a cluster and a user, both by name, and
/// optionally a namespace.
#[derive(Debug)]
pub struct ContextData {
    pub cluster: String,
    pub user: String,
    pub namespace: Option<String>,
}

/// What a `ContextData` holds.
pub struct ContextDataView {
    pub cluster: Seq<char>,
    pub user: Seq<char>,
    pub namespace: Option<Seq<char>>,
}

/// A context entry: a unique name and the binding it stands for.
#[derive(Debug)]
pub struct ContextEntry {
    pub context: ContextData,
    pub name: String,
}

/// What a `ContextEntry` holds.
pub struct ContextView {
    pub context: ContextDataView,
    pub name: Seq<char>,
}

/// A whole configuration document: three collections of named entries and
/// the name of the context that is currently selected.
#[derive(Debug)]
pub struct KubeConfig {
    pub api_version: String,
    pub clusters: Vec<ClusterEntry>,
    pub contexts: Vec<ContextEntry>,
    pub current_context: String,
    pub kind: String,
    pub preferences: Option<Preferences>,
    pub users: Vec<UserEntry>,
}

/// What a `KubeConfig` holds. Entries keep the order in which they stand in
/// the document.
pub struct KubeConfigView {
    pub api_version: Seq<char>,
    pub clusters: Seq<ClusterView>,
    pub contexts: Seq<ContextView>,
    pub current_context: Seq<char>,
    pub kind: Seq<char>,
    pub preferences: Option<Preferences>,
    pub users: Seq<UserView>,
}

impl DeepView for EnvVar {
    type V = EnvVarView;

    open spec fn deep_view(&self) -> EnvVarView {
        EnvVarView { name: self.name@, value: self.value@ }
    }
}

impl View for EnvVar {
    type V = EnvVarView;

    open spec fn view(&self) -> EnvVarView {
        self.deep_view()
    }
}

impl DeepView for ExecConfig {
    type V = ExecConfigView;

    open spec fn deep_view(&self) -> ExecConfigView {
        ExecConfigView {
            api_version: self.api_version@,
            command: self.command@,
            args: self.args.deep_view(),
            env: self.env.deep_view(),
            install_hint: self.install_hint.deep_view(),
            provide_cluster_info: self.provide_cluster_info,
            interactive_mode: self.interactive_mode.deep_view(),
        }
    }
}

impl View for ExecConfig {
    type V = ExecConfigView;

    open spec fn view(&self) -> ExecConfigView {
        self.deep_view()
    }
}

impl DeepView for AuthProviderConfig {
    type V = AuthProviderConfigView;

    open spec fn deep_view(&self) -> AuthProviderConfigView {
        AuthProviderConfigView { name: self.name@, config: self.config@ }
    }
}

impl View for AuthProviderConfig {
    type V = AuthProviderConfigView;

    open spec fn view(&self) -> AuthProviderConfigView {
        self.deep_view()
    }
}

impl DeepView for UserData {
    type V = UserDataView;

    open spec fn deep_view(&self) -> UserDataView {
        UserDataView {
            client_certificate_data: self.client_certificate_data.deep_view(),
            client_certificate: self.client_certificate.deep_view(),
            client_key_data: self.client_key_data.deep_view(),
            client_key: self.client_key.deep_view(),
            token: self.token.deep_view(),
            token_file: self.token_file.deep_view(),
            impersonate: self.impersonate.deep_view(),
            impersonate_uid: self.impersonate_uid.deep_view(),
            impersonate_groups: self.impersonate_groups.deep_view(),
            username: self.username.deep_view(),
            password: self.password.deep_view(),
            auth_provider: self.auth_provider.deep_view(),
            exec_config: self.exec_config.deep_view(),
        }
    }
}

impl View for UserData {
    type V = UserDataView;

    open spec fn view(&self) -> UserDataView {
        self.deep_view()
    }
}

impl DeepView for UserEntry {
    type V = UserView;

    open spec fn deep_view(&self) -> UserView {
        UserView { name: self.name@, user: self.user@ }
    }
}

impl View for UserEntry {
    type V = UserView;

    open spec fn view(&self) -> UserView {
        self.deep_view()
    }
}

impl DeepView for ClusterData {
    type V = ClusterDataView;

    open spec fn deep_view(&self) -> ClusterDataView {
        ClusterDataView {
            certificate_authority_data: self.certificate_authority_data.deep_view(),
            certificate_authority: self.certificate_authority.deep_view(),
            server: self.server@,
            insecure_skip_tls_verify: self.insecure_skip_tls_verify,
            tls_server_name: self.tls_server_name.deep_view(),
            proxy_url: self.proxy_url.deep_view(),
            disable_compression: self.disable_compression,
        }
    }
}

impl View for ClusterData {
    type V = ClusterDataView;

    open spec fn view(&self) -> ClusterDataView {
        self.deep_view()
    }
}

impl DeepView for ClusterEntry {
    type V = ClusterView;

    open spec fn deep_view(&self) -> ClusterView {
        ClusterView { cluster: self.cluster@, name: self.name@ }
    }
}

impl View for ClusterEntry {
    type V = ClusterView;

    open spec fn view(&self) -> ClusterView {
        self.deep_view()
    }
}

impl DeepView for ContextData {
    type V = ContextDataView;

    open spec fn deep_view(&self) -> ContextDataView {
        ContextDataView {
            cluster: self.cluster@,
            user: self.user@,
            namespace: self.namespace.deep_view(),
        }
    }
}

impl View for ContextData {
    type V = ContextDataView;

    open spec fn view(&self) -> ContextDataView {
        self.deep_view()
    }
}

impl DeepView for ContextEntry {
    type V = ContextView;

    open spec fn deep_view(&self) -> ContextView {
        ContextView { context: self.context@, name: self.name@ }
    }
}

impl View for ContextEntry {
    type V = ContextView;

    open spec fn view(&self) -> ContextView {
        self.deep_view()
    }
}

impl DeepView for KubeConfig {
    type V = KubeConfigView;

    open spec fn deep_view(&self) -> KubeConfigView {
        KubeConfigView {
            api_version: self.api_version@,
            clusters: self.clusters.deep_view(),
            contexts: self.contexts.deep_view(),
            current_context: self.current_context@,
            kind: self.kind@,
            preferences: self.preferences,
            users: self.users.deep_view(),
        }
    }
}

impl View for KubeConfig {
    type V = KubeConfigView;

    open spec fn view(&self) -> KubeConfigView {
        self.deep_view()
    }
}

/// Copies a text that may be absent.
fn clone_opt_string(o: &Option<String>) -> (r: Option<String>)
    ensures
        r == *o,
{
    match o {
        Some(s) => Some(s.clone()),
        None => None,
    }
}

/// Copies a list of texts that may be absent.
fn clone_opt_strings(o: &Option<Vec<String>>) -> (r: Option<Vec<String>>)
    ensures
        r.deep_view() == o.deep_view(),
{
    match o {
        Some(v) => {
            let w = v.clone();
            Some(w)
        },
        None => None,
    }
}

/// Copies a list of environment variables that may be absent.
fn clone_opt_env(o: &Option<Vec<EnvVar>>) -> (r: Option<Vec<EnvVar>>)
    ensures
        r.deep_view() == o.deep_view(),
{
    match o {
        Some(v) => {
            let w = v.clone();
            Some(w)
        },
        None => None,
    }
}

impl Clone for Preferences {
    fn clone(&self) -> (r: Self)
        ensures
            r == *self,
    {
        Preferences {  }
    }
}

impl Clone for EnvVar {
    fn clone(&self) -> (r: Self)
        ensures
            r@ == self@,
    {
        EnvVar { name: self.name.clone(), value: self.value.clone() }
    }
}

impl Clone for ContextData {
    fn clone(&self) -> (r: Self)
        ensures
            r@ == self@,
    {
        ContextData {
            cluster: self.cluster.clone(),
            user: self.user.clone(),
            namespace: clone_opt_string(&self.namespace),
        }
    }
}

impl Clone for ContextEntry {
    fn clone(&self) -> (r: Self)
        ensures
            r@ == self@,
    {
        ContextEntry { context: self.context.clone(), name: self.name.clone() }
    }
}

impl Clone for ClusterData {
    fn clone(&self) -> (r: Self)
        ensures
            r@ == self@,
    {
        ClusterData {
            certificate_authority_data: clone_opt_string(&self.certificate_authority_data),
            certificate_authority: clone_opt_string(&self.certificate_authority),
            server: self.server.clone(),
            insecure_skip_tls_verify: self.insecure_skip_tls_verify,
            tls_server_name: clone_opt_string(&self.tls_server_name),
            proxy_url: clone_opt_string(&self.proxy_url),
            disable_compression: self.disable_compression,
        }
    }
}

impl Clone for ClusterEntry {
    fn clone(&self) -> (r: Self)
        ensures
            r@ == self@,
    {
        ClusterEntry { cluster: self.cluster.clone(), name: self.name.clone() }
    }
}

impl Clone for ExecConfig {
    fn clone(&self) -> (r: Self)
        ensures
            r@ == self@,
    {
        ExecConfig {
            api_version: self.api_version.clone(),
            command: self.command.clone(),
            args: clone_opt_strings(&self.args),
            env: clone_opt_env(&self.env),
            install_hint: clone_opt_string(&self.install_hint),
            provide_cluster_info: self.provide_cluster_info,
            interactive_mode: clone_opt_string(&self.interactive_mode),
        }
    }
}

impl Clone for AuthProviderConfig {
    fn clone(&self) -> (r: Self)
        ensures
            r@ == self@,
    {
        AuthProviderConfig { name: self.name.clone(), config: self.config.clone() }
    }
}

impl Clone for UserData {
    fn clone(&self) -> (r: Self)
        ensures
            r@ == self@,
    {
        let auth_provider = match &self.auth_provider {
            Some(a) => Some(a.clone()),
            None => None,
        };
        let exec_config = match &self.exec_config {
            Some(e) => Some(e.clone()),
            None => None,
        };
        UserData {
            client_certificate_data: clone_opt_string(&self.client_certificate_data),
            client_certificate: clone_opt_string(&self.client_certificate),
            client_key_data: clone_opt_string(&self.client_key_data),
            client_key: clone_opt_string(&self.client_key),
            token: clone_opt_string(&self.token),
            token_file: clone_opt_string(&self.token_file),
            impersonate: clone_opt_string(&self.impersonate),
            impersonate_uid: clone_opt_string(&self.impersonate_uid),
            impersonate_groups: clone_opt_strings(&self.impersonate_groups),
            username: clone_opt_string(&self.username),
            password: clone_opt_string(&self.password),
            auth_provider,
            exec_config,
        }
    }
}

impl Clone for UserEntry {
    fn clone(&self) -> (r: Self)
        ensures
            r@ == self@,
    {
        UserEntry { name: self.name.clone(), user: self.user.clone() }
    }
}

impl Clone for KubeConfig {
    fn clone(&self) -> (r: Self)
        ensures
            r@ == self@,
    {
        let clusters = self.clusters.clone();
        let contexts = self.contexts.clone();
        let users = self.users.clone();
        let preferences = match &self.preferences {
            Some(p) => Some(p.clone()),
            None => None,
        };
        KubeConfig {
            api_version: self.api_version.clone(),
            clusters,
            contexts,
            current_context: self.current_context.clone(),
            kind: self.kind.clone(),
            preferences,
            users,
        }
    }
}

impl ClusterDataView {
    /// The connection data with an empty server address and nothing else set.
    pub open spec fn empty() -> ClusterDataView {
        ClusterDataView {
            certificate_authority_data: None,
            certificate_authority: None,
            server: Seq::empty(),
            insecure_skip_tls_verify: None,
            tls_server_name: None,
            proxy_url: None,
            disable_compression: None,
        }
    }
}

impl UserDataView {
    /// The credentials with nothing set.
    pub open spec fn empty() -> UserDataView {
        UserDataView {
            client_certificate_data: None,
            client_certificate: None,
            client_key_data: None,
            client_key: None,
            token: None,
            token_file: None,
            impersonate: None,
            impersonate_uid: None,
            impersonate_groups: None,
            username: None,
            password: None,
            auth_provider: None,
            exec_config: None,
        }
    }
}

impl ExecConfigView {
    /// The plugin descriptor with empty strings and nothing else set.
    pub open spec fn empty() -> ExecConfigView {
        ExecConfigView {
            api_version: Seq::empty(),
            command: Seq::empty(),
            args: None,
            env: None,
            install_hint: None,
            provide_cluster_info: None,
            interactive_mode: None,
        }
    }
}

impl KubeConfigView {
    /// The document without entries: version tag `v1`, type tag `Config`, no
    /// current selection, an empty preferences object.
    pub open spec fn empty() -> KubeConfigView {
        KubeConfigView {
            api_version: "v1"@,
            clusters: Seq::empty(),
            contexts: Seq::empty(),
            current_context: Seq::empty(),
            kind: "Config"@,
            preferences: Some(Preferences {  }),
            users: Seq::empty(),
        }
    }
}

impl Default for Preferences {
    fn default() -> (r: Self)
        ensures
            r == (Preferences {  }),
    {
        Preferences {  }
    }
}

impl Default for ClusterData {
    fn default() -> (r: Self)
        ensures
            r@ == ClusterDataView::empty(),
    {
        ClusterData {
            certificate_authority_data: None,
            certificate_authority: None,
            server: String::new(),
            insecure_skip_tls_verify: None,
            tls_server_name: None,
            proxy_url: None,
            disable_compression: None,
        }
    }
}

impl Default for UserData {
    fn default() -> (r: Self)
        ensures
            r@ == UserDataView::empty(),
    {
        UserData {
            client_certificate_data: None,
            client_certificate: None,
            client_key_data: None,
            client_key: None,
            token: None,
            token_file: None,
            impersonate: None,
            impersonate_uid: None,
            impersonate_groups: None,
            username: None,
            password: None,
            auth_provider: None,
            exec_config: None,
        }
    }
}

impl Default for ExecConfig {
    fn default() -> (r: Self)
        ensures
            r@ == ExecConfigView::empty(),
    {
        ExecConfig {
            api_version: String::new(),
            command: String::new(),
            args: None,
            env: None,
            install_hint: None,
            provide_cluster_info: None,
            interactive_mode: None,
        }
    }
}

impl Default for KubeConfig {
    fn default() -> (r: Self)
        ensures
            r@ == KubeConfigView::empty(),
    {
        let r = KubeConfig {
            api_version: default_api_version(),
            clusters: Vec::new(),
            contexts: Vec::new(),
            current_context: String::new(),
            kind: default_kind(),
            preferences: Some(Preferences {  }),
            users: Vec::new(),
        };
        assert(r.clusters.deep_view() =~= Seq::empty());
        assert(r.contexts.deep_view() =~= Seq::empty());
        assert(r.users.deep_view() =~= Seq::empty());
        r
    }
}

} // verus!
