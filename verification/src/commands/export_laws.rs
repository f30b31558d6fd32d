use crate::commands::export::{
    entry_named, export_all, export_result, export_step, first_unknown, with_entry, Exported,
};
use crate::config::kubernetes::KubeConfigView;
use crate::entries::{
    lemma_first_index_exists, lemma_names_push, names_of, unique_names, Named,
};
use vstd::prelude::*;

verus! {

/// What holds of the entries gathered for an export, after any number of
/// contexts: no name stands twice; the contexts are contexts of the
/// document; and the cluster and the user of every context are gathered
/// with it.
pub open spec fn is_closed(config: KubeConfigView, gathered: Exported) -> bool {
    &&& unique_names(gathered.contexts)
    &&& unique_names(gathered.clusters)
    &&& unique_names(gathered.users)
    &&& forall|i: int|
        0 <= i < gathered.contexts.len() ==> {
            &&& config.contexts.contains(#[trigger] gathered.contexts[i])
            &&& names_of(gathered.clusters).contains(gathered.contexts[i].context.cluster)
            &&& names_of(gathered.users).contains(gathered.contexts[i].context.user)
        }
    &&& forall|i: int|
        0 <= i < gathered.clusters.len() ==> config.clusters.contains(
            #[trigger] gathered.clusters[i],
        )
    &&& forall|i: int|
        0 <= i < gathered.users.len() ==> config.users.contains(#[trigger] gathered.users[i])
}

/// The first entry of a name has that name, and stands in the collection.
pub proof fn lemma_entry_named<E: Named>(entries: Seq<E>, name: Seq<char>)
    requires
        names_of(entries).contains(name),
    ensures
        entry_named(entries, name).name() == name,
        entries.contains(entry_named(entries, name)),
{
    lemma_first_index_exists(names_of(entries), name);
}

/// Taking an entry into a collection unless its name is there keeps names
/// unique and what was there, and the entry's name is there afterwards.
pub proof fn lemma_with_entry<E: Named>(entries: Seq<E>, e: E)
    requires
        unique_names(entries),
    ensures
        unique_names(with_entry(entries, e)),
        names_of(with_entry(entries, e)).contains(e.name()),
        with_entry(entries, e).len() >= entries.len(),
        with_entry(entries, e).take(entries.len() as int) == entries,
        forall|name: Seq<char>|
            names_of(entries).contains(name) ==> names_of(with_entry(entries, e)).contains(name),
        forall|i: int|
            0 <= i < with_entry(entries, e).len() ==> entries.contains(
                #[trigger] with_entry(entries, e)[i],
            ) || with_entry(entries, e)[i] == e,
{
    let after = with_entry(entries, e);
    if !names_of(entries).contains(e.name()) {
        lemma_names_push(entries, e);
        assert(names_of(after)[entries.len() as int] == e.name());
        assert forall|name: Seq<char>| names_of(entries).contains(name) implies names_of(
            after,
        ).contains(name) by {
            let k = choose|k: int| 0 <= k < entries.len() && names_of(entries)[k] == name;
            assert(names_of(after)[k] == name);
        }
    }
}

/// Gathering one more context keeps the gathered entries closed, and the
/// context's name is among them afterwards.
pub proof fn lemma_export_step_closed(config: KubeConfigView, gathered: Exported, name: Seq<char>)
    requires
        is_closed(config, gathered),
        export_step(config, gathered, name) is Ok,
    ensures
        is_closed(config, export_step(config, gathered, name)->Ok_0),
        names_of(export_step(config, gathered, name)->Ok_0.contexts).contains(name),
        forall|other: Seq<char>|
            names_of(gathered.contexts).contains(other) ==> names_of(
                export_step(config, gathered, name)->Ok_0.contexts,
            ).contains(other),
{
    let after = export_step(config, gathered, name)->Ok_0;
    let context = entry_named(config.contexts, name);
    let cluster = entry_named(config.clusters, context.context.cluster);
    let user = entry_named(config.users, context.context.user);
    lemma_entry_named(config.contexts, name);
    lemma_entry_named(config.clusters, context.context.cluster);
    lemma_entry_named(config.users, context.context.user);
    lemma_with_entry(gathered.contexts, context);
    lemma_with_entry(gathered.clusters, cluster);
    lemma_with_entry(gathered.users, user);
    assert forall|i: int| 0 <= i < after.contexts.len() implies {
        &&& config.contexts.contains(#[trigger] after.contexts[i])
        &&& names_of(after.clusters).contains(after.contexts[i].context.cluster)
        &&& names_of(after.users).contains(after.contexts[i].context.user)
    } by {}
}

/// What was gathered for an export is closed, and holds a context of every
/// name that was asked for.
pub proof fn lemma_export_all_closed(config: KubeConfigView, names: Seq<Seq<char>>)
    requires
        export_all(config, names) is Ok,
    ensures
        is_closed(config, export_all(config, names)->Ok_0),
        forall|i: int|
            0 <= i < names.len() ==> names_of(export_all(config, names)->Ok_0.contexts).contains(
                #[trigger] names[i],
            ),
    decreases names.len(),
{
    if names.len() > 0 {
        let init = names.drop_last();
        lemma_export_all_closed(config, init);
        let gathered = export_all(config, init)->Ok_0;
        lemma_export_step_closed(config, gathered, names.last());
        let after = export_all(config, names)->Ok_0;
        assert forall|i: int| 0 <= i < names.len() implies names_of(after.contexts).contains(
            #[trigger] names[i],
        ) by {
            if i < init.len() {
                assert(names_of(gathered.contexts).contains(init[i]));
            }
        }
    }
}

/// An exported document stands on its own: no name stands twice in it; its
/// contexts, clusters and users are such of the document it comes from;
/// every context's cluster and user are in it; it holds a context of every
/// name that was asked for; and its current selection is one of its
/// contexts.
pub proof fn lemma_export_is_closed(config: KubeConfigView, names: Seq<Seq<char>>)
    requires
        export_result(config, names) is Ok,
    ensures
        ({
            let exported = export_result(config, names)->Ok_0;
            &&& is_closed(
                config,
                Exported {
                    contexts: exported.contexts,
                    clusters: exported.clusters,
                    users: exported.users,
                },
            )
            &&& forall|i: int|
                0 <= i < names.len() ==> names_of(exported.contexts).contains(#[trigger] names[i])
            &&& names_of(exported.contexts).contains(exported.current_context)
        }),
{
    lemma_export_all_closed(config, names);
}

/// An export is refused for an unknown name before anything else: where one
/// of the names is not that of a context, the first such name is reported.
pub proof fn lemma_export_unknown_name(config: KubeConfigView, names: Seq<Seq<char>>, i: int)
    requires
        0 <= i < names.len(),
        !names_of(config.contexts).contains(names[i]),
    ensures
        first_unknown(names, names_of(config.contexts)) is Some,
        export_result(config, names) is Err,
    decreases names.len(),
{
    if i < names.len() - 1 {
        lemma_export_unknown_name(config, names.drop_last(), i);
    }
}

} // verus!
