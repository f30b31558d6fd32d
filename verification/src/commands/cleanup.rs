use crate::config::kubernetes::{ClusterEntry, ContextView, KubeConfig, KubeConfigView, UserEntry};
use crate::entries::{
    entry_names, listed_in, names_of, not_listed_in, partition_by_names, unlisted_names,
};
use vstd::prelude::*;

verus! {

/// The cluster names that the contexts refer to, one for each context.
pub open spec fn referenced_clusters(contexts: Seq<ContextView>) -> Seq<Seq<char>> {
    Seq::new(contexts.len(), |i: int| contexts[i].context.cluster)
}

/// The user names that the contexts refer to, one for each context.
pub open spec fn referenced_users(contexts: Seq<ContextView>) -> Seq<Seq<char>> {
    Seq::new(contexts.len(), |i: int| contexts[i].context.user)
}

/// The names of the clusters that no context refers to, in document order.
pub open spec fn orphaned_clusters(config: KubeConfigView) -> Seq<Seq<char>> {
    names_of(not_listed_in(config.clusters, referenced_clusters(config.contexts)))
}

/// The names of the users that no context refers to, in document order.
pub open spec fn orphaned_users(config: KubeConfigView) -> Seq<Seq<char>> {
    names_of(not_listed_in(config.users, referenced_users(config.contexts)))
}

/// The document without the clusters and users that no context refers to.
/// The contexts and the current selection stay.
pub open spec fn cleaned(config: KubeConfigView) -> KubeConfigView {
    KubeConfigView {
        clusters: listed_in(config.clusters, referenced_clusters(config.contexts)),
        users: listed_in(config.users, referenced_users(config.contexts)),
        ..config
    }
}

/// The names of clusters and users that no context refers to.
#[derive(Debug)]
pub struct Orphans {
    pub clusters: Vec<String>,
    pub users: Vec<String>,
}

impl Orphans {
    /// Whether there is no orphan of either kind.
    pub fn is_empty(&self) -> (b: bool)
        ensures
            b == (self.clusters.deep_view().len() == 0 && self.users.deep_view().len() == 0),
    {
        self.clusters.is_empty() && self.users.is_empty()
    }
}

/// Lists the cluster names that the contexts refer to.
fn cluster_references(config: &KubeConfig) -> (r: Vec<String>)
    ensures
        r.deep_view() == referenced_clusters(config@.contexts),
{
    let mut names: Vec<String> = Vec::new();
    let mut i: usize = 0;
    while i < config.contexts.len()
        invariant
            i <= config.contexts.len(),
            names.len() == i,
            forall|j: int| 0 <= j < i ==> names@[j]@ == config.contexts@[j].context.cluster@,
        decreases config.contexts.len() - i,
    {
        names.push(config.contexts[i].context.cluster.clone());
        i += 1;
    }
    names
}

/// Lists the user names that the contexts refer to.
fn user_references(config: &KubeConfig) -> (r: Vec<String>)
    ensures
        r.deep_view() == referenced_users(config@.contexts),
{
    let mut names: Vec<String> = Vec::new();
    let mut i: usize = 0;
    while i < config.contexts.len()
        invariant
            i <= config.contexts.len(),
            names.len() == i,
            forall|j: int| 0 <= j < i ==> names@[j]@ == config.contexts@[j].context.user@,
        decreases config.contexts.len() - i,
    {
        names.push(config.contexts[i].context.user.clone());
        i += 1;
    }
    names
}

/// Removes the clusters and users that no context refers to, and says which
/// they were. What is referred to is worked out anew from the contexts as
/// they stand.
pub fn cleanup_orphans(config: &mut KubeConfig) -> (removed: Orphans)
    ensures
        final(config)@ == cleaned(old(config)@),
        removed.clusters.deep_view() == orphaned_clusters(old(config)@),
        removed.users.deep_view() == orphaned_users(old(config)@),
{
    let cluster_names = cluster_references(config);
    let user_names = user_references(config);
    let mut clusters: Vec<ClusterEntry> = Vec::new();
    let mut users: Vec<UserEntry> = Vec::new();
    std::mem::swap(&mut config.clusters, &mut clusters);
    std::mem::swap(&mut config.users, &mut users);
    let (kept_clusters, orphaned_clusters) = partition_by_names(clusters, &cluster_names);
    let (kept_users, orphaned_users) = partition_by_names(users, &user_names);
    let removed = Orphans {
        clusters: entry_names(&orphaned_clusters),
        users: entry_names(&orphaned_users),
    };
    config.clusters = kept_clusters;
    config.users = kept_users;
    removed
}

/// Says which clusters and users no context refers to, and leaves the
/// document as it is.
pub fn find_orphans(config: &KubeConfig) -> (found: Orphans)
    ensures
        found.clusters.deep_view() == orphaned_clusters(config@),
        found.users.deep_view() == orphaned_users(config@),
{
    let cluster_names = cluster_references(config);
    let user_names = user_references(config);
    Orphans {
        clusters: unlisted_names(&config.clusters, &cluster_names),
        users: unlisted_names(&config.users, &user_names),
    }
}

} // verus!
