use crate::config::kubernetes::{
    ClusterEntry, ClusterView, ContextEntry, ContextView, KubeConfig, KubeConfigView, UserEntry,
    UserView,
};
use crate::entries::{
    entry_names, first_index, names_of, position, Named, NamedEntry,
};
use crate::naming::contains_name;
use crate::text::framed;
use vstd::string::StringExecFns;
use vstd::prelude::*;

verus! {

/// Why nothing was exported.
#[derive(Debug)]
pub enum ExportError {
    /// The document has no contexts.
    NoContexts,
    /// No context was chosen.
    NothingSelected,
    /// No context has this name.
    ContextNotFound(String),
    /// The context refers to a cluster that the document does not hold.
    ClusterNotFound { cluster: String, context: String },
    /// The context refers to a user that the document does not hold.
    UserNotFound { user: String, context: String },
}

/// What an `ExportError` holds.
pub enum ExportErrorView {
    NoContexts,
    NothingSelected,
    ContextNotFound(Seq<char>),
    ClusterNotFound { cluster: Seq<char>, context: Seq<char> },
    UserNotFound { user: Seq<char>, context: Seq<char> },
}

impl View for ExportError {
    type V = ExportErrorView;

    open spec fn view(&self) -> ExportErrorView {
        match self {
            ExportError::NoContexts => ExportErrorView::NoContexts,
            ExportError::NothingSelected => ExportErrorView::NothingSelected,
            ExportError::ContextNotFound(name) => ExportErrorView::ContextNotFound(name@),
            ExportError::ClusterNotFound { cluster, context } => ExportErrorView::ClusterNotFound {
                cluster: cluster@,
                context: context@,
            },
            ExportError::UserNotFound { user, context } => ExportErrorView::UserNotFound {
                user: user@,
                context: context@,
            },
        }
    }
}

/// How the contexts to export are settled.
#[derive(Debug)]
pub enum ExportSelection {
    /// These are exported.
    Selected(Vec<String>),
    /// Some of these are to be picked.
    Ask(Vec<String>),
}

/// What an `ExportSelection` holds.
pub enum ExportSelectionView {
    Selected(Seq<Seq<char>>),
    Ask(Seq<Seq<char>>),
}

impl View for ExportSelection {
    type V = ExportSelectionView;

    open spec fn view(&self) -> ExportSelectionView {
        match self {
            ExportSelection::Selected(names) => ExportSelectionView::Selected(names.deep_view()),
            ExportSelection::Ask(names) => ExportSelectionView::Ask(names.deep_view()),
        }
    }
}

/// The first of `names` that is not among `known`.
pub open spec fn first_unknown(names: Seq<Seq<char>>, known: Seq<Seq<char>>) -> Option<
    Seq<char>,
>
    decreases names.len(),
{
    if names.len() == 0 {
        None
    } else {
        match first_unknown(names.drop_last(), known) {
            Some(name) => Some(name),
            None => if known.contains(names.last()) {
                None
            } else {
                Some(names.last())
            },
        }
    }
}

/// How the contexts to export are settled from the names that were asked
/// for. Names that were given must all be names of contexts. Where none was
/// given, the only context of the document is taken; of several, some are to
/// be picked; a document without contexts has nothing to export.
pub open spec fn selection_result(config: KubeConfigView, names: Seq<Seq<char>>) -> Result<
    ExportSelectionView,
    ExportErrorView,
> {
    let known = names_of(config.contexts);
    if names.len() > 0 {
        match first_unknown(names, known) {
            Some(name) => Err(ExportErrorView::ContextNotFound(name)),
            None => Ok(ExportSelectionView::Selected(names)),
        }
    } else if known.len() == 0 {
        Err(ExportErrorView::NoContexts)
    } else if known.len() == 1 {
        Ok(ExportSelectionView::Selected(known))
    } else {
        Ok(ExportSelectionView::Ask(known))
    }
}

/// The entries gathered for an export.
pub struct Exported {
    pub contexts: Seq<ContextView>,
    pub clusters: Seq<ClusterView>,
    pub users: Seq<UserView>,
}

/// The first entry called `name`.
pub open spec fn entry_named<E: Named>(entries: Seq<E>, name: Seq<char>) -> E {
    entries[first_index(names_of(entries), name)]
}

/// The collection with `e` at its end, unless it holds an entry of that name
/// already.
pub open spec fn with_entry<E: Named>(entries: Seq<E>, e: E) -> Seq<E> {
    if names_of(entries).contains(e.name()) {
        entries
    } else {
        entries.push(e)
    }
}

/// Gathers the context `name` with the cluster and the user that it refers
/// to, each unless it was gathered before.
pub open spec fn export_step(config: KubeConfigView, gathered: Exported, name: Seq<char>) -> Result<
    Exported,
    ExportErrorView,
> {
    if !names_of(config.contexts).contains(name) {
        Err(ExportErrorView::ContextNotFound(name))
    } else {
        let context = entry_named(config.contexts, name);
        let cluster = context.context.cluster;
        let user = context.context.user;
        if !names_of(config.clusters).contains(cluster) {
            Err(ExportErrorView::ClusterNotFound { cluster, context: name })
        } else if !names_of(config.users).contains(user) {
            Err(ExportErrorView::UserNotFound { user, context: name })
        } else {
            Ok(
                Exported {
                    contexts: with_entry(gathered.contexts, context),
                    clusters: with_entry(gathered.clusters, entry_named(config.clusters, cluster)),
                    users: with_entry(gathered.users, entry_named(config.users, user)),
                },
            )
        }
    }
}

/// Gathers the contexts `names` one after the other, up to the first that
/// cannot be gathered.
pub open spec fn export_all(config: KubeConfigView, names: Seq<Seq<char>>) -> Result<
    Exported,
    ExportErrorView,
>
    decreases names.len(),
{
    if names.len() == 0 {
        Ok(Exported { contexts: Seq::empty(), clusters: Seq::empty(), users: Seq::empty() })
    } else {
        match export_all(config, names.drop_last()) {
            Err(e) => Err(e),
            Ok(gathered) => export_step(config, gathered, names.last()),
        }
    }
}

/// The document that exporting the contexts `names` gives, or why there is
/// none: the contexts with the clusters and users they refer to, each once,
/// in the order in which they were first asked for; the first name asked for
/// is its current selection; the rest is as in the document they come from.
pub open spec fn export_result(config: KubeConfigView, names: Seq<Seq<char>>) -> Result<
    KubeConfigView,
    ExportErrorView,
> {
    if names.len() == 0 {
        Err(ExportErrorView::NothingSelected)
    } else {
        match first_unknown(names, names_of(config.contexts)) {
            Some(name) => Err(ExportErrorView::ContextNotFound(name)),
            None => match export_all(config, names) {
                Err(e) => Err(e),
                Ok(gathered) => Ok(
                    KubeConfigView {
                        contexts: gathered.contexts,
                        clusters: gathered.clusters,
                        users: gathered.users,
                        current_context: names[0],
                        ..config
                    },
                ),
            },
        }
    }
}

/// Finds the first of `names` that is not among `known`.
fn find_unknown(names: &Vec<String>, known: &Vec<String>) -> (r: Option<String>)
    ensures
        r.deep_view() == first_unknown(names.deep_view(), known.deep_view()),
{
    let ghost all = names.deep_view();
    let mut i: usize = 0;
    while i < names.len()
        invariant
            i <= names.len(),
            all == names.deep_view(),
            first_unknown(all.take(i as int), known.deep_view()) is None,
        decreases names.len() - i,
    {
        proof {
            assert(all.take(i + 1).drop_last() =~= all.take(i as int));
        }
        if !contains_name(known, &names[i]) {
            proof {
                lemma_first_unknown_stays(all, known.deep_view(), i + 1);
            }
            return Some(names[i].clone());
        }
        i += 1;
    }
    assert(all.take(all.len() as int) =~= all);
    None
}

/// An unknown name among the first names is the first unknown name of
/// all.
proof fn lemma_first_unknown_stays(names: Seq<Seq<char>>, known: Seq<Seq<char>>, i: int)
    requires
        0 <= i <= names.len(),
        first_unknown(names.take(i), known) is Some,
    ensures
        first_unknown(names, known) == first_unknown(names.take(i), known),
    decreases names.len() - i,
{
    if i < names.len() {
        assert(names.take(i + 1).drop_last() =~= names.take(i));
        lemma_first_unknown_stays(names, known, i + 1);
    } else {
        assert(names.take(i) =~= names);
    }
}

/// Settles which contexts to export from the names that were asked for.
pub fn export_selection(config: &KubeConfig, context_names: Vec<String>) -> (r: Result<
    ExportSelection,
    ExportError,
>)
    ensures
        match selection_result(config@, context_names.deep_view()) {
            Ok(selection) => r is Ok && r->Ok_0@ == selection,
            Err(e) => r is Err && r->Err_0@ == e,
        },
{
    let known = entry_names(&config.contexts);
    if !context_names.is_empty() {
        match find_unknown(&context_names, &known) {
            Some(name) => Err(ExportError::ContextNotFound(name)),
            None => Ok(ExportSelection::Selected(context_names)),
        }
    } else if known.is_empty() {
        Err(ExportError::NoContexts)
    } else if known.len() == 1 {
        Ok(ExportSelection::Selected(known))
    } else {
        Ok(ExportSelection::Ask(known))
    }
}

/// Takes a copy of `entry` into `gathered` unless an entry of its name is
/// there. The copy is to hold what the entry holds.
fn push_if_absent<T: NamedEntry + Clone>(gathered: &mut Vec<T>, entry: &T) where
    <T as DeepView>::V: Named,

    requires
        forall|a: T, b: T| call_ensures(T::clone, (&a,), b) ==> a.deep_view() == b.deep_view(),
    ensures
        final(gathered).deep_view() == with_entry(old(gathered).deep_view(), entry.deep_view()),
{
    if position(gathered, entry.entry_name()).is_none() {
        let copy = entry.clone();
        gathered.push(copy);
    }
}

/// Builds the document that holds the contexts `selected` and what they
/// refer to.
///
/// Every name must be that of a context, and every context's cluster and
/// user must stand in the document; the first name that fails is reported,
/// an unknown context before a missing cluster or user.
pub fn export_contexts(config: &KubeConfig, selected: &Vec<String>) -> (r: Result<
    KubeConfig,
    ExportError,
>)
    ensures
        match export_result(config@, selected.deep_view()) {
            Ok(exported) => r is Ok && r->Ok_0@ == exported,
            Err(e) => r is Err && r->Err_0@ == e,
        },
{
    let ghost names = selected.deep_view();
    if selected.is_empty() {
        return Err(ExportError::NothingSelected);
    }
    let known = entry_names(&config.contexts);
    match find_unknown(selected, &known) {
        Some(name) => {
            return Err(ExportError::ContextNotFound(name));
        },
        None => {},
    }
    let mut contexts: Vec<ContextEntry> = Vec::new();
    let mut clusters: Vec<ClusterEntry> = Vec::new();
    let mut users: Vec<UserEntry> = Vec::new();
    proof {
        assert(contexts.deep_view() =~= Seq::empty());
        assert(clusters.deep_view() =~= Seq::empty());
        assert(users.deep_view() =~= Seq::empty());
    }
    let mut i: usize = 0;
    while i < selected.len()
        invariant
            i <= selected.len(),
            names == selected.deep_view(),
            names.len() > 0,
            first_unknown(names, names_of(config@.contexts)) is None,
            export_all(config@, names.take(i as int)) == Ok::<Exported, ExportErrorView>(
                Exported {
                    contexts: contexts.deep_view(),
                    clusters: clusters.deep_view(),
                    users: users.deep_view(),
                },
            ),
        decreases selected.len() - i,
    {
        let name = &selected[i];
        proof {
            assert(names.take(i + 1).drop_last() =~= names.take(i as int));
        }
        let context = match position(&config.contexts, name) {
            Some(at) => &config.contexts[at],
            None => {
                proof {
                    lemma_export_error_stays(config@, names, i + 1);
                }
                return Err(ExportError::ContextNotFound(name.clone()));
            },
        };
        let cluster = match position(&config.clusters, &context.context.cluster) {
            Some(at) => &config.clusters[at],
            None => {
                proof {
                    lemma_export_error_stays(config@, names, i + 1);
                }
                return Err(
                    ExportError::ClusterNotFound {
                        cluster: context.context.cluster.clone(),
                        context: name.clone(),
                    },
                );
            },
        };
        let user = match position(&config.users, &context.context.user) {
            Some(at) => &config.users[at],
            None => {
                proof {
                    lemma_export_error_stays(config@, names, i + 1);
                }
                return Err(
                    ExportError::UserNotFound {
                        user: context.context.user.clone(),
                        context: name.clone(),
                    },
                );
            },
        };
        push_if_absent(&mut contexts, context);
        push_if_absent(&mut clusters, cluster);
        push_if_absent(&mut users, user);
        i += 1;
    }
    proof {
        assert(names.take(names.len() as int) =~= names);
    }
    let preferences = match &config.preferences {
        Some(p) => Some(p.clone()),
        None => None,
    };
    Ok(
        KubeConfig {
            api_version: config.api_version.clone(),
            clusters,
            contexts,
            current_context: selected[0].clone(),
            kind: config.kind.clone(),
            preferences,
            users,
        },
    )
}

/// A context that cannot be gathered stops the gathering: what fails for
/// the first names fails for all.
proof fn lemma_export_error_stays(config: KubeConfigView, names: Seq<Seq<char>>, i: int)
    requires
        0 <= i <= names.len(),
        export_all(config, names.take(i)) is Err,
    ensures
        export_all(config, names) == export_all(config, names.take(i)),
    decreases names.len() - i,
{
    if i < names.len() {
        assert(names.take(i + 1).drop_last() =~= names.take(i));
        lemma_export_error_stays(config, names, i + 1);
    } else {
        assert(names.take(i) =~= names);
    }
}

/// The message that tells the user why nothing was exported.
pub open spec fn export_error_text(e: ExportErrorView) -> Seq<char> {
    match e {
        ExportErrorView::NoContexts => "No contexts available to export"@,
        ExportErrorView::NothingSelected => "No contexts selected"@,
        ExportErrorView::ContextNotFound(name) => "Context '"@ + name + "' not found"@,
        ExportErrorView::ClusterNotFound { cluster, context } => "Cluster '"@ + cluster
            + "' not found for context '"@ + context + "'"@,
        ExportErrorView::UserNotFound { user, context } => "User '"@ + user
            + "' not found for context '"@ + context + "'"@,
    }
}

impl ExportError {
    /// The message for the user.
    pub fn message(&self) -> (r: String)
        ensures
            r@ == export_error_text(self@),
    {
        match self {
            ExportError::NoContexts => "No contexts available to export".to_string(),
            ExportError::NothingSelected => "No contexts selected".to_string(),
            ExportError::ContextNotFound(name) => framed("Context '", name.as_str(), "' not found"),
            ExportError::ClusterNotFound { cluster, context } => {
                let mut text = framed("Cluster '", cluster.as_str(), "' not found for context '");
                text.append(context.as_str());
                text.append("'");
                text
            },
            ExportError::UserNotFound { user, context } => {
                let mut text = framed("User '", user.as_str(), "' not found for context '");
                text.append(context.as_str());
                text.append("'");
                text
            },
        }
    }
}

} // verus!
