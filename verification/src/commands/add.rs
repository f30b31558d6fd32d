use crate::config::kubernetes::{
    ClusterView, ContextData, ContextDataView, ContextEntry, ContextView, KubeConfig,
    KubeConfigView, UserView,
};
use crate::config::operations::{
    classify_parse_error, malformed_message, malformed_text, missing_field_message,
    missing_field_text, parse_failure, ParseFailure,
};
use crate::entries::{
    entry_names, first_index, names_of, position, Named, NamedEntry,
};
use crate::name_map::NameMap;
use crate::naming::{
    candidate_name, candidate_string, contains_name, fresh_name, lemma_first_free_unique,
    lemma_tries_bounded,
};
use crate::text::{blank, is_blank, join, joined};
use vstd::prelude::*;
use vstd::string::StringExecFns;

verus! {

/// Finds a name for an entry called `base_name` whose name is taken: the
/// first of `base-imported`, `base-imported-2`, `base-imported-3`, ... that
/// is not among `existing_names`.
pub fn find_available_name(base_name: &str, existing_names: &Vec<String>) -> (r: String)
    ensures
        r@ == fresh_name(base_name@, existing_names.deep_view()),
        !existing_names.deep_view().contains(r@),
{
    let ghost names = existing_names.deep_view();
    let mut taken: usize = 0;
    let mut new_name = candidate_string(base_name, 1);
    while contains_name(existing_names, &new_name)
        invariant
            names == existing_names.deep_view(),
            taken <= existing_names.len(),
            new_name@ == candidate_name(base_name@, (taken + 1) as nat),
            forall|j: nat|
                1 <= j <= taken ==> names.contains(#[trigger] candidate_name(base_name@, j)),
        decreases existing_names.len() - taken,
    {
        proof {
            lemma_tries_bounded(base_name@, names, (taken + 1) as nat);
        }
        taken += 1;
        new_name = candidate_string(base_name, taken as u128 + 1);
    }
    proof {
        lemma_first_free_unique(base_name@, names, (taken + 1) as nat);
    }
    new_name
}

/// What becomes of an incoming entry.
pub enum MergeAction {
    /// Its name is new: it is added at the end.
    Append,
    /// Its name is taken and entries are overwritten: it takes the place of
    /// the entry at `index`.
    Overwrite { index: int },
    /// Its name is taken and entries are renamed: it is added at the end
    /// under `name`.
    Rename { name: Seq<char> },
    /// Its name is taken and nothing else was asked for: it is left out.
    Skip,
}

/// Decides what becomes of an incoming entry called `name`, given the names
/// that the collection holds. Overwriting goes before renaming.
pub open spec fn merge_action(
    names: Seq<Seq<char>>,
    name: Seq<char>,
    rename: bool,
    overwrite: bool,
) -> MergeAction {
    if !names.contains(name) {
        MergeAction::Append
    } else if overwrite {
        MergeAction::Overwrite { index: first_index(names, name) }
    } else if rename {
        MergeAction::Rename { name: fresh_name(name, names) }
    } else {
        MergeAction::Skip
    }
}

/// A collection in the course of a merge, with the record of what was done.
pub struct Merged<E> {
    /// The collection's entries.
    pub entries: Seq<E>,
    /// The names under which entries were added, in the order of the additions.
    pub added: Seq<Seq<char>>,
    /// The names of the entries that were overwritten.
    pub overwritten: Seq<Seq<char>>,
    /// The names of the incoming entries that were left out.
    pub skipped: Seq<Seq<char>>,
    /// For each incoming entry that was renamed, its new name by its old one.
    pub renames: Map<Seq<char>, Seq<char>>,
    /// The name under which the first entry was added or overwritten.
    pub first_changed: Option<Seq<char>>,
}

impl<E> Merged<E> {
    /// The collection before anything is merged into it.
    pub open spec fn start(entries: Seq<E>) -> Merged<E> {
        Merged {
            entries,
            added: Seq::empty(),
            overwritten: Seq::empty(),
            skipped: Seq::empty(),
            renames: Map::empty(),
            first_changed: None,
        }
    }

}

/// `first` if it is set, else `name`.
pub open spec fn first_or(first: Option<Seq<char>>, name: Seq<char>) -> Option<Seq<char>> {
    match first {
        Some(_) => first,
        None => Some(name),
    }
}

/// Merges one incoming entry into a collection.
pub open spec fn merge_step<E: Named>(m: Merged<E>, e: E, rename: bool, overwrite: bool) -> Merged<
    E,
> {
    match merge_action(names_of(m.entries), e.name(), rename, overwrite) {
        MergeAction::Append => Merged {
            entries: m.entries.push(e),
            added: m.added.push(e.name()),
            first_changed: first_or(m.first_changed, e.name()),
            ..m
        },
        MergeAction::Overwrite { index } => Merged {
            entries: m.entries.update(index, e),
            overwritten: m.overwritten.push(e.name()),
            first_changed: first_or(m.first_changed, e.name()),
            ..m
        },
        MergeAction::Rename { name } => Merged {
            entries: m.entries.push(e.renamed(name)),
            added: m.added.push(name),
            renames: m.renames.insert(e.name(), name),
            first_changed: first_or(m.first_changed, name),
            ..m
        },
        MergeAction::Skip => Merged { skipped: m.skipped.push(e.name()), ..m },
    }
}

/// Merges the incoming entries into a collection, one after the other, each
/// against the collection as the entries before it have left it.
pub open spec fn merge_all<E: Named>(
    start: Merged<E>,
    incoming: Seq<E>,
    rename: bool,
    overwrite: bool,
) -> Merged<E>
    decreases incoming.len(),
{
    if incoming.len() == 0 {
        start
    } else {
        merge_step(
            merge_all(start, incoming.drop_last(), rename, overwrite),
            incoming.last(),
            rename,
            overwrite,
        )
    }
}

/// The record of a merge of one collection.
#[derive(Debug)]
pub struct MergeOutcome {
    /// The names under which entries were added, in the order of the additions.
    pub added: Vec<String>,
    /// The names of the entries that were overwritten.
    pub overwritten: Vec<String>,
    /// The names of the incoming entries that were left out.
    pub skipped: Vec<String>,
    /// For each incoming entry that was renamed, its new name by its old one.
    pub renames: NameMap,
    /// The name under which the first entry was added or overwritten.
    pub first_changed: Option<String>,
}

impl MergeOutcome {
    /// The merged collection that this record and `entries` stand for.
    pub open spec fn merged<E>(self, entries: Seq<E>) -> Merged<E> {
        Merged {
            entries,
            added: self.added.deep_view(),
            overwritten: self.overwritten.deep_view(),
            skipped: self.skipped.deep_view(),
            renames: self.renames@,
            first_changed: self.first_changed.deep_view(),
        }
    }
}

/// Merging one entry more is one step more.
proof fn lemma_merge_all_next<E: Named>(
    start: Merged<E>,
    incoming: Seq<E>,
    i: int,
    rename: bool,
    overwrite: bool,
)
    requires
        0 <= i < incoming.len(),
    ensures
        merge_all(start, incoming.take(i + 1), rename, overwrite) == merge_step(
            merge_all(start, incoming.take(i), rename, overwrite),
            incoming[i],
            rename,
            overwrite,
        ),
{
    assert(incoming.take(i + 1).drop_last() =~= incoming.take(i));
}

/// Merges `incoming` into `main`. An entry whose name is new is added at the
/// end. One whose name is taken replaces the entry of that name where
/// `overwrite` is set; else, where `rename` is set, it is added under a fresh
/// name; else it is left out.
pub fn merge_entries<T: NamedEntry>(
    main: &mut Vec<T>,
    incoming: Vec<T>,
    rename: bool,
    overwrite: bool,
) -> (outcome: MergeOutcome) where <T as DeepView>::V: Named
    ensures
        outcome.merged(final(main).deep_view()) == merge_all(
            Merged::start(old(main).deep_view()),
            incoming.deep_view(),
            rename,
            overwrite,
        ),
{
    let ghost start = Merged::start(main.deep_view());
    let ghost all = incoming.deep_view();
    let mut outcome = MergeOutcome {
        added: Vec::new(),
        overwritten: Vec::new(),
        skipped: Vec::new(),
        renames: NameMap::new(),
        first_changed: None,
    };
    proof {
        assert(outcome.added.deep_view() =~= Seq::empty());
    }
    for entry in it: incoming.into_iter()
        invariant
            all == incoming.deep_view(),
            outcome.merged(main.deep_view()) == merge_all(
                start,
                all.take(it.index() as int),
                rename,
                overwrite,
            ),
    {
        let ghost i = it.index() as int;
        let ghost before = outcome.merged(main.deep_view());
        let ghost e = entry.deep_view();
        proof {
            lemma_merge_all_next(start, all, i, rename, overwrite);
        }
        let name = entry.entry_name().clone();
        match position(main, &name) {
            Some(index) => {
                if overwrite {
                    main[index] = entry;
                    outcome.overwritten.push(name.clone());
                    if outcome.first_changed.is_none() {
                        outcome.first_changed = Some(name);
                    }
                    proof {
                        assert(main.deep_view() =~= before.entries.update(index as int, e));
                        assert(outcome.overwritten.deep_view() =~= before.overwritten.push(
                            e.name(),
                        ));
                    }
                } else if rename {
                    let existing = entry_names(main);
                    let new_name = find_available_name(name.as_str(), &existing);
                    let mut renamed = entry;
                    renamed.set_entry_name(new_name.clone());
                    main.push(renamed);
                    outcome.added.push(new_name.clone());
                    outcome.renames.insert(name, new_name.clone());
                    if outcome.first_changed.is_none() {
                        outcome.first_changed = Some(new_name);
                    }
                    proof {
                        assert(main.deep_view() =~= before.entries.push(e.renamed(new_name@)));
                        assert(outcome.added.deep_view() =~= before.added.push(new_name@));
                    }
                } else {
                    outcome.skipped.push(name);
                    proof {
                        assert(outcome.skipped.deep_view() =~= before.skipped.push(e.name()));
                    }
                }
            },
            None => {
                main.push(entry);
                outcome.added.push(name.clone());
                if outcome.first_changed.is_none() {
                    outcome.first_changed = Some(name);
                }
                proof {
                    assert(main.deep_view() =~= before.entries.push(e));
                    assert(outcome.added.deep_view() =~= before.added.push(e.name()));
                }
            },
        }
    }
    proof {
        assert(all.take(all.len() as int) =~= all);
    }
    outcome
}

/// What an import did, by kind of entry: the names added, skipped and
/// overwritten.
#[derive(Debug)]
pub struct ImportSummary {
    pub contexts_added: Vec<String>,
    pub clusters_added: Vec<String>,
    pub users_added: Vec<String>,
    pub contexts_skipped: Vec<String>,
    pub clusters_skipped: Vec<String>,
    pub users_skipped: Vec<String>,
    pub contexts_overwritten: Vec<String>,
    pub clusters_overwritten: Vec<String>,
    pub users_overwritten: Vec<String>,
}

/// What an `ImportSummary` holds.
pub struct ImportSummaryView {
    pub contexts_added: Seq<Seq<char>>,
    pub clusters_added: Seq<Seq<char>>,
    pub users_added: Seq<Seq<char>>,
    pub contexts_skipped: Seq<Seq<char>>,
    pub clusters_skipped: Seq<Seq<char>>,
    pub users_skipped: Seq<Seq<char>>,
    pub contexts_overwritten: Seq<Seq<char>>,
    pub clusters_overwritten: Seq<Seq<char>>,
    pub users_overwritten: Seq<Seq<char>>,
}

impl ImportSummaryView {
    /// The summary of an import that did nothing.
    pub open spec fn empty() -> ImportSummaryView {
        ImportSummaryView {
            contexts_added: Seq::empty(),
            clusters_added: Seq::empty(),
            users_added: Seq::empty(),
            contexts_skipped: Seq::empty(),
            clusters_skipped: Seq::empty(),
            users_skipped: Seq::empty(),
            contexts_overwritten: Seq::empty(),
            clusters_overwritten: Seq::empty(),
            users_overwritten: Seq::empty(),
        }
    }

    /// Whether anything was added or overwritten.
    pub open spec fn has_changes(self) -> bool {
        ||| self.contexts_added.len() > 0
        ||| self.clusters_added.len() > 0
        ||| self.users_added.len() > 0
        ||| self.contexts_overwritten.len() > 0
        ||| self.clusters_overwritten.len() > 0
        ||| self.users_overwritten.len() > 0
    }
}

impl DeepView for ImportSummary {
    type V = ImportSummaryView;

    open spec fn deep_view(&self) -> ImportSummaryView {
        ImportSummaryView {
            contexts_added: self.contexts_added.deep_view(),
            clusters_added: self.clusters_added.deep_view(),
            users_added: self.users_added.deep_view(),
            contexts_skipped: self.contexts_skipped.deep_view(),
            clusters_skipped: self.clusters_skipped.deep_view(),
            users_skipped: self.users_skipped.deep_view(),
            contexts_overwritten: self.contexts_overwritten.deep_view(),
            clusters_overwritten: self.clusters_overwritten.deep_view(),
            users_overwritten: self.users_overwritten.deep_view(),
        }
    }
}

impl View for ImportSummary {
    type V = ImportSummaryView;

    open spec fn view(&self) -> ImportSummaryView {
        self.deep_view()
    }
}

impl ImportSummary {
    /// The summary of an import that has done nothing yet.
    pub fn new() -> (r: Self)
        ensures
            r@ == ImportSummaryView::empty(),
    {
        let r = ImportSummary {
            contexts_added: Vec::new(),
            clusters_added: Vec::new(),
            users_added: Vec::new(),
            contexts_skipped: Vec::new(),
            clusters_skipped: Vec::new(),
            users_skipped: Vec::new(),
            contexts_overwritten: Vec::new(),
            clusters_overwritten: Vec::new(),
            users_overwritten: Vec::new(),
        };
        proof {
            assert(r.contexts_added.deep_view() =~= Seq::empty());
        }
        r
    }

    /// Whether the import added or overwritten anything, that is, whether
    /// the document differs from what it was.
    pub fn has_changes(&self) -> (b: bool)
        ensures
            b == self@.has_changes(),
    {
        !self.contexts_added.is_empty() || !self.clusters_added.is_empty()
            || !self.users_added.is_empty() || !self.contexts_overwritten.is_empty()
            || !self.clusters_overwritten.is_empty() || !self.users_overwritten.is_empty()
    }
}

/// Lists the names of the document's clusters.
pub fn get_cluster_names(config: &KubeConfig) -> (r: Vec<String>)
    ensures
        r.deep_view() == names_of(config@.clusters),
{
    entry_names(&config.clusters)
}

/// Lists the names of the document's users.
pub fn get_user_names(config: &KubeConfig) -> (r: Vec<String>)
    ensures
        r.deep_view() == names_of(config@.users),
{
    entry_names(&config.users)
}

/// Lists the names of the document's contexts.
pub fn get_context_names(config: &KubeConfig) -> (r: Vec<String>)
    ensures
        r.deep_view() == names_of(config@.contexts),
{
    entry_names(&config.contexts)
}

/// The name that a reference goes by after a merge: its new name where the
/// entry it names was renamed, else the name itself.
pub open spec fn remap_name(renames: Map<Seq<char>, Seq<char>>, name: Seq<char>) -> Seq<char> {
    if renames.contains_key(name) {
        renames[name]
    } else {
        name
    }
}

/// The context with its two references rewritten through the renamings of
/// clusters and users.
pub open spec fn remap_context(
    c: ContextView,
    cluster_renames: Map<Seq<char>, Seq<char>>,
    user_renames: Map<Seq<char>, Seq<char>>,
) -> ContextView {
    ContextView {
        context: ContextDataView {
            cluster: remap_name(cluster_renames, c.context.cluster),
            user: remap_name(user_renames, c.context.user),
            ..c.context
        },
        ..c
    }
}

/// The contexts, each with its references rewritten.
pub open spec fn remap_contexts(
    contexts: Seq<ContextView>,
    cluster_renames: Map<Seq<char>, Seq<char>>,
    user_renames: Map<Seq<char>, Seq<char>>,
) -> Seq<ContextView> {
    Seq::new(contexts.len(), |i: int| remap_context(contexts[i], cluster_renames, user_renames))
}

/// Whether a context can be made up for an incoming document that has
/// none: it names a current context and its first cluster and first user
/// have names.
pub open spec fn can_fabricate_context(ext: KubeConfigView) -> bool {
    &&& ext.contexts.len() == 0
    &&& ext.current_context.len() > 0
    &&& ext.clusters.len() > 0
    &&& ext.users.len() > 0
    &&& ext.clusters[0].name.len() > 0
    &&& ext.users[0].name.len() > 0
}

/// The incoming document as it is merged: where it has no contexts and one
/// can be made up, with a context of the name it calls current, which binds
/// its first cluster and first user in the namespace `default`.
pub open spec fn with_fabricated_context(ext: KubeConfigView) -> KubeConfigView {
    if can_fabricate_context(ext) {
        KubeConfigView {
            contexts: seq![
                ContextView {
                    name: ext.current_context,
                    context: ContextDataView {
                        cluster: ext.clusters[0].name,
                        user: ext.users[0].name,
                        namespace: Some("default"@),
                    },
                },
            ],
            ..ext
        }
    } else {
        ext
    }
}

/// Whether the incoming document holds no entry of any kind.
pub open spec fn nothing_to_import(ext: KubeConfigView) -> bool {
    ext.contexts.len() == 0 && ext.clusters.len() == 0 && ext.users.len() == 0
}

/// The three merges that make up an import.
pub struct ImportPlan {
    pub clusters: Merged<ClusterView>,
    pub users: Merged<UserView>,
    pub contexts: Merged<ContextView>,
}

impl ImportPlan {
    /// The document `main` after the import.
    pub open spec fn config(self, main: KubeConfigView) -> KubeConfigView {
        KubeConfigView {
            clusters: self.clusters.entries,
            users: self.users.entries,
            contexts: self.contexts.entries,
            ..main
        }
    }

    /// The import's summary.
    pub open spec fn summary(self) -> ImportSummaryView {
        ImportSummaryView {
            contexts_added: self.contexts.added,
            clusters_added: self.clusters.added,
            users_added: self.users.added,
            contexts_skipped: self.contexts.skipped,
            clusters_skipped: self.clusters.skipped,
            users_skipped: self.users.skipped,
            contexts_overwritten: self.contexts.overwritten,
            clusters_overwritten: self.clusters.overwritten,
            users_overwritten: self.users.overwritten,
        }
    }
}

/// Imports `ext` into `main`: clusters and users are merged first; then the
/// contexts, whose references have been rewritten through the renamings that
/// the first two merges made.
pub open spec fn import_plan(
    main: KubeConfigView,
    ext: KubeConfigView,
    rename: bool,
    overwrite: bool,
) -> ImportPlan {
    let clusters = merge_all(Merged::start(main.clusters), ext.clusters, rename, overwrite);
    let users = merge_all(Merged::start(main.users), ext.users, rename, overwrite);
    let contexts = merge_all(
        Merged::start(main.contexts),
        remap_contexts(ext.contexts, clusters.renames, users.renames),
        rename,
        overwrite,
    );
    ImportPlan { clusters, users, contexts }
}

/// The document that an import leaves: the merged document, with the first
/// context that was added or overwritten selected where `switch` is set and
/// there is such a context.
pub open spec fn imported_config(
    main: KubeConfigView,
    ext: KubeConfigView,
    rename: bool,
    overwrite: bool,
    switch: bool,
) -> KubeConfigView {
    let plan = import_plan(main, ext, rename, overwrite);
    match plan.contexts.first_changed {
        Some(name) if switch => KubeConfigView { current_context: name, ..plan.config(main) },
        _ => plan.config(main),
    }
}

/// Why an import was refused.
#[derive(Debug)]
pub enum AddError {
    /// The incoming document holds no contexts, clusters or users.
    NothingToImport,
}

/// What an import did.
#[derive(Debug)]
pub struct ImportOutcome {
    /// The names added, skipped and overwritten.
    pub summary: ImportSummary,
    /// The name under which the first context was added or overwritten.
    pub first_context: Option<String>,
    /// Whether the current selection was set to that context.
    pub switched: bool,
}

/// Rewrites the references of incoming contexts to the new names of
/// renamed clusters and users.
fn rewrite_references(
    contexts: Vec<ContextEntry>,
    cluster_renames: &NameMap,
    user_renames: &NameMap,
) -> (r: Vec<ContextEntry>)
    ensures
        r.deep_view() == remap_contexts(contexts.deep_view(), cluster_renames@, user_renames@),
{
    let ghost all = contexts.deep_view();
    let mut out: Vec<ContextEntry> = Vec::new();
    for context in it: contexts.into_iter()
        invariant
            all == contexts.deep_view(),
            out.len() == it.index(),
            forall|j: int|
                0 <= j < out.len() ==> out@[j].deep_view() == remap_context(
                    all[j],
                    cluster_renames@,
                    user_renames@,
                ),
    {
        let mut context = context;
        match cluster_renames.get(&context.context.cluster) {
            Some(new_name) => {
                context.context.cluster = new_name.clone();
            },
            None => {},
        }
        match user_renames.get(&context.context.user) {
            Some(new_name) => {
                context.context.user = new_name.clone();
            },
            None => {},
        }
        out.push(context);
    }
    out
}

/// Makes up a context for an incoming document that has none, where that
/// can be done.
fn fabricate_context(external: &mut KubeConfig)
    ensures
        final(external)@ == with_fabricated_context(old(external)@),
{
    if external.contexts.is_empty() && !external.clusters.is_empty()
        && !external.current_context.as_str().is_empty() && !external.users.is_empty() {
        let cluster_name = external.clusters[0].name.clone();
        let user_name = external.users[0].name.clone();
        if !cluster_name.as_str().is_empty() && !user_name.as_str().is_empty() {
            let context = ContextEntry {
                name: external.current_context.clone(),
                context: ContextData {
                    cluster: cluster_name,
                    user: user_name,
                    namespace: Some("default".to_string()),
                },
            };
            external.contexts.push(context);
            proof {
                assert(external.contexts.deep_view() =~= with_fabricated_context(
                    old(external)@,
                ).contexts);
            }
        }
    }
}

/// Checks that the document `external` has something to import: an entry of
/// some kind, be it after a context was made up for it.
pub fn ensure_importable(external: &KubeConfig) -> (r: Result<(), AddError>)
    ensures
        r is Err <==> nothing_to_import(with_fabricated_context(external@)),
{
    if external.contexts.is_empty() && external.clusters.is_empty() && external.users.is_empty() {
        Err(AddError::NothingToImport)
    } else {
        Ok(())
    }
}

/// Imports the document `external` into `main`.
///
/// Where `external` has no contexts but names a current context, and its
/// first cluster and first user have names, a context of that name is made up
/// first. A document that then holds no entry at all is refused, and `main`
/// stays as it is. Else clusters, users and contexts are merged in this
/// order, each by `rename` and `overwrite`, the contexts with their
/// references rewritten to the new names of renamed clusters and users. With
/// `switch`, the first context that was added or overwritten becomes the
/// current selection.
pub fn add_context(
    main: &mut KubeConfig,
    external: KubeConfig,
    rename: bool,
    overwrite: bool,
    switch: bool,
) -> (r: Result<ImportOutcome, AddError>)
    ensures
        ({
            let ext = with_fabricated_context(external@);
            let plan = import_plan(old(main)@, ext, rename, overwrite);
            match r {
                Err(AddError::NothingToImport) => nothing_to_import(ext) && final(main)@ == old(
                    main,
                )@,
                Ok(outcome) => {
                    &&& !nothing_to_import(ext)
                    &&& final(main)@ == imported_config(old(main)@, ext, rename, overwrite, switch)
                    &&& outcome.summary@ == plan.summary()
                    &&& outcome.first_context.deep_view() == plan.contexts.first_changed
                    &&& outcome.switched == (switch && plan.contexts.first_changed is Some)
                },
            }
        }),
{
    match ensure_importable(&external) {
        Err(e) => {
            return Err(e);
        },
        Ok(()) => {},
    }
    let mut external = external;
    fabricate_context(&mut external);
    let clusters = merge_entries(&mut main.clusters, external.clusters, rename, overwrite);
    let users = merge_entries(&mut main.users, external.users, rename, overwrite);
    let incoming = rewrite_references(external.contexts, &clusters.renames, &users.renames);
    let contexts = merge_entries(&mut main.contexts, incoming, rename, overwrite);
    let summary = ImportSummary {
        contexts_added: contexts.added,
        clusters_added: clusters.added,
        users_added: users.added,
        contexts_skipped: contexts.skipped,
        clusters_skipped: clusters.skipped,
        users_skipped: users.skipped,
        contexts_overwritten: contexts.overwritten,
        clusters_overwritten: clusters.overwritten,
        users_overwritten: users.overwritten,
    };
    let first_context = contexts.first_changed;
    let mut switched = false;
    if switch {
        match &first_context {
            Some(name) => {
                main.current_context = name.clone();
                switched = true;
            },
            None => {},
        }
    }
    Ok(ImportOutcome { summary, first_context, switched })
}

/// What was done with the entries that a line of the summary names.
#[derive(Debug, Clone, Copy, PartialEq, Eq, Structural)]
pub enum SummaryAction {
    Added,
    Overwritten,
    Skipped,
}

/// The kind of the entries that a line of the summary names.
#[derive(Debug, Clone, Copy, PartialEq, Eq, Structural)]
pub enum EntryKind {
    Context,
    Cluster,
    User,
}

/// One line of an import's summary: what was done to which kind of entry,
/// and the names of the entries, separated by a comma and a blank.
#[derive(Debug)]
pub struct SummaryLine {
    pub action: SummaryAction,
    pub kind: EntryKind,
    pub names: String,
}

/// What a `SummaryLine` holds.
pub struct SummaryLineView {
    pub action: SummaryAction,
    pub kind: EntryKind,
    pub names: Seq<char>,
}

impl DeepView for SummaryLine {
    type V = SummaryLineView;

    open spec fn deep_view(&self) -> SummaryLineView {
        SummaryLineView { action: self.action, kind: self.kind, names: self.names@ }
    }
}

impl View for SummaryLine {
    type V = SummaryLineView;

    open spec fn view(&self) -> SummaryLineView {
        self.deep_view()
    }
}

/// The line for one action on one kind of entry: none where no entry is
/// named.
pub open spec fn summary_line(action: SummaryAction, kind: EntryKind, names: Seq<Seq<char>>) -> Seq<
    SummaryLineView,
> {
    if names.len() > 0 {
        seq![SummaryLineView { action, kind, names: joined(names, ", "@) }]
    } else {
        Seq::empty()
    }
}

/// The lines of a summary: what was added, then what was overwritten, then
/// what was skipped; within each, contexts before clusters before users.
pub open spec fn summary_lines(summary: ImportSummaryView) -> Seq<SummaryLineView> {
    summary_line(SummaryAction::Added, EntryKind::Context, summary.contexts_added) + summary_line(
        SummaryAction::Added,
        EntryKind::Cluster,
        summary.clusters_added,
    ) + summary_line(SummaryAction::Added, EntryKind::User, summary.users_added) + summary_line(
        SummaryAction::Overwritten,
        EntryKind::Context,
        summary.contexts_overwritten,
    ) + summary_line(SummaryAction::Overwritten, EntryKind::Cluster, summary.clusters_overwritten)
        + summary_line(SummaryAction::Overwritten, EntryKind::User, summary.users_overwritten)
        + summary_line(SummaryAction::Skipped, EntryKind::Context, summary.contexts_skipped)
        + summary_line(SummaryAction::Skipped, EntryKind::Cluster, summary.clusters_skipped)
        + summary_line(SummaryAction::Skipped, EntryKind::User, summary.users_skipped)
}

/// Adds the line for one action on one kind of entry, if any entry is
/// named.
fn push_summary_line(
    lines: &mut Vec<SummaryLine>,
    action: SummaryAction,
    kind: EntryKind,
    names: &Vec<String>,
)
    ensures
        final(lines).deep_view() == old(lines).deep_view() + summary_line(
            action,
            kind,
            names.deep_view(),
        ),
{
    if !names.is_empty() {
        let line = SummaryLine { action, kind, names: join(names, ", ") };
        lines.push(line);
    }
}

impl ImportSummary {
    /// Writes the summary as lines, one for each action and kind of entry
    /// for which there is a name to show.
    pub fn lines(&self) -> (r: Vec<SummaryLine>)
        ensures
            r.deep_view() == summary_lines(self@),
    {
        let mut lines: Vec<SummaryLine> = Vec::new();
        push_summary_line(
            &mut lines,
            SummaryAction::Added,
            EntryKind::Context,
            &self.contexts_added,
        );
        push_summary_line(
            &mut lines,
            SummaryAction::Added,
            EntryKind::Cluster,
            &self.clusters_added,
        );
        push_summary_line(&mut lines, SummaryAction::Added, EntryKind::User, &self.users_added);
        push_summary_line(
            &mut lines,
            SummaryAction::Overwritten,
            EntryKind::Context,
            &self.contexts_overwritten,
        );
        push_summary_line(
            &mut lines,
            SummaryAction::Overwritten,
            EntryKind::Cluster,
            &self.clusters_overwritten,
        );
        push_summary_line(
            &mut lines,
            SummaryAction::Overwritten,
            EntryKind::User,
            &self.users_overwritten,
        );
        push_summary_line(
            &mut lines,
            SummaryAction::Skipped,
            EntryKind::Context,
            &self.contexts_skipped,
        );
        push_summary_line(
            &mut lines,
            SummaryAction::Skipped,
            EntryKind::Cluster,
            &self.clusters_skipped,
        );
        push_summary_line(&mut lines, SummaryAction::Skipped, EntryKind::User, &self.users_skipped);
        lines
    }
}

/// The message for an incoming file that holds nothing but white space.
pub open spec fn empty_import_text(path: Seq<char>) -> Seq<char> {
    "Config file is empty: "@ + path
        + "\n\nThe kubeconfig file you're trying to add contains no data."@
}

/// The message for an incoming file that could not be decoded, by what the
/// decoder's complaint `detail` says is missing.
pub open spec fn import_failure_text(path: Seq<char>, detail: Seq<char>) -> Seq<char> {
    match parse_failure(detail) {
        ParseFailure::MissingRequiredFields => "Invalid kubeconfig file: "@ + path
            + "\n\nThe file appears to be missing required fields (apiVersion, kind).\n\nOriginal error: "@
            + detail,
        ParseFailure::MissingField => missing_field_text(path, detail),
        ParseFailure::Malformed => malformed_text(path, detail),
    }
}

/// What is made of an incoming file at `path`, given whether its text is
/// nothing but white space and what decoding the text gave: an empty file is
/// refused, whatever the decoder made of it; a text that did not decode is
/// refused with a message that says what is missing; else the document is
/// handed on.
pub open spec fn loaded_import(
    path: Seq<char>,
    is_empty: bool,
    parsed: Result<KubeConfig, String>,
) -> Result<KubeConfig, Seq<char>> {
    if is_empty {
        Err(empty_import_text(path))
    } else {
        match parsed {
            Ok(config) => Ok(config),
            Err(detail) => Err(import_failure_text(path, detail@)),
        }
    }
}

/// Judges what was read from the incoming file at `path`, given whether its
/// text is nothing but white space and what decoding the text gave.
pub fn judge_import(path: &str, is_empty: bool, parsed: Result<KubeConfig, String>) -> (r: Result<
    KubeConfig,
    String,
>)
    ensures
        match loaded_import(path@, is_empty, parsed) {
            Ok(config) => r == Ok::<KubeConfig, String>(config),
            Err(message) => r is Err && r->Err_0@ == message,
        },
{
    if is_empty {
        let mut message = "Config file is empty: ".to_string();
        message.append(path);
        message.append("\n\nThe kubeconfig file you're trying to add contains no data.");
        return Err(message);
    }
    match parsed {
        Ok(config) => Ok(config),
        Err(detail) => {
            let message = match classify_parse_error(detail.as_str()) {
                ParseFailure::MissingRequiredFields => {
                    let mut message = "Invalid kubeconfig file: ".to_string();
                    message.append(path);
                    message.append(
                        "\n\nThe file appears to be missing required fields (apiVersion, kind).\n\nOriginal error: ",
                    );
                    message.append(detail.as_str());
                    message
                },
                ParseFailure::MissingField => missing_field_message(path, detail.as_str()),
                ParseFailure::Malformed => malformed_message(path, detail.as_str()),
            };
            Err(message)
        },
    }
}

/// Judges what was read from the incoming file at `path`: `content` is the
/// file's text and `parsed` what decoding it gave. A text of nothing but
/// white space is refused as empty, whatever the decoder made of it; a text
/// that did not decode is refused with a message that says what is missing;
/// else the document is handed on.
pub fn load_external_config(path: &str, content: &str, parsed: Result<KubeConfig, String>) -> (r:
    Result<KubeConfig, String>)
    ensures
        match loaded_import(path@, is_blank(content@), parsed) {
            Ok(config) => r == Ok::<KubeConfig, String>(config),
            Err(message) => r is Err && r->Err_0@ == message,
        },
        content@.len() == 0 ==> r is Err && r->Err_0@ == empty_import_text(path@),
{
    judge_import(path, blank(content), parsed)
}

impl AddError {
    /// The message for the user.
    pub fn message(&self) -> (r: String)
        ensures
            r@ == "External kubeconfig contains no contexts, clusters, or users to import"@,
    {
        match self {
            AddError::NothingToImport => {
                "External kubeconfig contains no contexts, clusters, or users to import".to_string()
            },
        }
    }
}

} // verus!
