use crate::commands::add::{
    import_plan, imported_config, merge_action, merge_all, merge_step, remap_contexts, Merged,
};
use crate::config::kubernetes::{ContextView, KubeConfigView};
use crate::entries::{
    first_index, is_first_index, lemma_first_index_exists, lemma_names_push, lemma_names_update,
    names_of, unique_names, Named,
};
use crate::naming::{
    fresh_name, lemma_fresh_name_first, lemma_fresh_name_is_free, lemma_fresh_name_second,
};
use vstd::prelude::*;

verus! {

/// A merge keeps the names that the collection held, each in its place: an
/// incoming entry is added at the end or takes the place of the entry of its
/// own name.
pub proof fn lemma_merge_keeps_names<E: Named>(
    start: Merged<E>,
    incoming: Seq<E>,
    rename: bool,
    overwrite: bool,
)
    ensures
        ({
            let merged = merge_all(start, incoming, rename, overwrite);
            &&& merged.entries.len() >= start.entries.len()
            &&& names_of(merged.entries).take(start.entries.len() as int) == names_of(
                start.entries,
            )
        }),
    decreases incoming.len(),
{
    if incoming.len() > 0 {
        let before = merge_all(start, incoming.drop_last(), rename, overwrite);
        lemma_merge_keeps_names(start, incoming.drop_last(), rename, overwrite);
        let e = incoming.last();
        let names = names_of(before.entries);
        if names.contains(e.name()) {
            lemma_first_index_exists(names, e.name());
        }
    }
}

/// Without overwriting, a merge leaves the entries that the collection held
/// untouched.
pub proof fn lemma_merge_keeps_entries<E: Named>(start: Merged<E>, incoming: Seq<E>, rename: bool)
    ensures
        ({
            let merged = merge_all(start, incoming, rename, false);
            &&& merged.entries.len() >= start.entries.len()
            &&& merged.entries.take(start.entries.len() as int) == start.entries
            &&& merged.overwritten == start.overwritten
        }),
    decreases incoming.len(),
{
    if incoming.len() > 0 {
        lemma_merge_keeps_entries(start, incoming.drop_last(), rename);
    }
}

/// A merge keeps names unique: in a collection that held no name twice, no
/// name stands twice afterwards, whatever the incoming entries are called.
pub proof fn lemma_merge_keeps_names_unique<E: Named>(
    start: Merged<E>,
    incoming: Seq<E>,
    rename: bool,
    overwrite: bool,
)
    requires
        unique_names(start.entries),
    ensures
        unique_names(merge_all(start, incoming, rename, overwrite).entries),
    decreases incoming.len(),
{
    if incoming.len() > 0 {
        let before = merge_all(start, incoming.drop_last(), rename, overwrite);
        lemma_merge_keeps_names_unique(start, incoming.drop_last(), rename, overwrite);
        let e = incoming.last();
        let names = names_of(before.entries);
        if names.contains(e.name()) {
            lemma_first_index_exists(names, e.name());
            if overwrite {
                lemma_names_update(before.entries, first_index(names, e.name()), e);
            } else if rename {
                let fresh = fresh_name(e.name(), names);
                lemma_fresh_name_is_free(e.name(), names);
                e.lemma_renamed(fresh);
                lemma_names_push(before.entries, e.renamed(fresh));
            }
        } else {
            lemma_names_push(before.entries, e);
        }
    }
}

/// Incoming entries whose names are all new, and differ from one another,
/// are added at the end, once each and in their order; the entries that the
/// collection held stay as they were; nothing is skipped, overwritten or
/// renamed.
pub proof fn lemma_merge_new_names<E: Named>(
    main: Seq<E>,
    incoming: Seq<E>,
    rename: bool,
    overwrite: bool,
)
    requires
        unique_names(incoming),
        forall|i: int|
            0 <= i < incoming.len() ==> !names_of(main).contains(#[trigger] incoming[i].name()),
    ensures
        merge_all(Merged::start(main), incoming, rename, overwrite) == (Merged {
            entries: main + incoming,
            added: names_of(incoming),
            first_changed: if incoming.len() > 0 {
                Some(incoming[0].name())
            } else {
                None
            },
            ..Merged::start(main)
        }),
    decreases incoming.len(),
{
    let merged = merge_all(Merged::start(main), incoming, rename, overwrite);
    if incoming.len() == 0 {
        assert(names_of(incoming) =~= Seq::empty());
    } else {
        let init = incoming.drop_last();
        let e = incoming.last();
        assert(unique_names(init)) by {
            assert forall|i: int, j: int|
                0 <= i < init.len() && 0 <= j < init.len() && i != j implies names_of(init)[i]
                != names_of(init)[j] by {
                assert(names_of(incoming)[i] != names_of(incoming)[j]);
            }
        }
        lemma_merge_new_names(main, init, rename, overwrite);
        let before = merge_all(Merged::start(main), init, rename, overwrite);
        let names = names_of(before.entries);
        assert(!names.contains(e.name())) by {
            if names.contains(e.name()) {
                let k = choose|k: int| 0 <= k < names.len() && names[k] == e.name();
                if k < main.len() {
                    assert(names_of(main)[k] == e.name());
                } else {
                    assert(names_of(incoming)[k - main.len()] == e.name());
                    assert(names_of(incoming)[incoming.len() - 1] == e.name());
                }
            }
        }
        assert(merged.entries =~= main + incoming);
        assert(merged.added =~= names_of(incoming));
    }
}

/// Incoming entries whose names are all taken are all skipped where neither
/// renaming nor overwriting was asked for: the collection stays as it was.
pub proof fn lemma_merge_taken_names<E: Named>(main: Seq<E>, incoming: Seq<E>)
    requires
        forall|i: int|
            0 <= i < incoming.len() ==> names_of(main).contains(#[trigger] incoming[i].name()),
    ensures
        merge_all(Merged::start(main), incoming, false, false) == (Merged {
            skipped: names_of(incoming),
            ..Merged::start(main)
        }),
    decreases incoming.len(),
{
    let merged = merge_all(Merged::start(main), incoming, false, false);
    if incoming.len() == 0 {
        assert(names_of(incoming) =~= Seq::empty());
    } else {
        let init = incoming.drop_last();
        lemma_merge_taken_names(main, init);
        assert(merged.skipped =~= names_of(incoming));
    }
}

/// A merge that has added and overwritten nothing has left the collection
/// as it was.
pub proof fn lemma_merge_without_changes<E: Named>(
    start: Merged<E>,
    incoming: Seq<E>,
    rename: bool,
    overwrite: bool,
)
    ensures
        ({
            let merged = merge_all(start, incoming, rename, overwrite);
            &&& merged.added.len() >= start.added.len()
            &&& merged.overwritten.len() >= start.overwritten.len()
            &&& merged.added.len() == start.added.len() && merged.overwritten.len()
                == start.overwritten.len() ==> merged.entries == start.entries && merged.renames
                == start.renames && merged.first_changed == start.first_changed
        }),
    decreases incoming.len(),
{
    if incoming.len() > 0 {
        lemma_merge_without_changes(start, incoming.drop_last(), rename, overwrite);
    }
}

/// Renaming one entry whose name is taken: the collection keeps all its
/// entries and gets the incoming one at the end, under a name that was free;
/// that name is `name-imported`, or `name-imported-2` where the first is
/// taken and the second is not.
pub proof fn lemma_rename_step<E: Named>(m: Merged<E>, e: E)
    requires
        names_of(m.entries).contains(e.name()),
    ensures
        ({
            let names = names_of(m.entries);
            let fresh = fresh_name(e.name(), names);
            let merged = merge_step(m, e, true, false);
            &&& merged.entries == m.entries.push(e.renamed(fresh))
            &&& names_of(merged.entries) == names.push(fresh)
            &&& !names.contains(fresh)
            &&& merged.added == m.added.push(fresh)
            &&& merged.renames == m.renames.insert(e.name(), fresh)
            &&& !names.contains(e.name() + "-imported"@) ==> fresh == e.name() + "-imported"@
            &&& names.contains(e.name() + "-imported"@) && !names.contains(
                e.name() + "-imported-2"@,
            ) ==> fresh == e.name() + "-imported-2"@
        }),
{
    let names = names_of(m.entries);
    let fresh = fresh_name(e.name(), names);
    lemma_fresh_name_is_free(e.name(), names);
    e.lemma_renamed(fresh);
    if !names.contains(e.name() + "-imported"@) {
        lemma_fresh_name_first(e.name(), names);
    } else if !names.contains(e.name() + "-imported-2"@) {
        lemma_fresh_name_second(e.name(), names);
    }
}

/// Overwriting with one entry whose name is taken: the incoming entry takes
/// the place of the first entry of its name; the collection keeps its length
/// and every name keeps its place.
pub proof fn lemma_overwrite_step<E: Named>(m: Merged<E>, e: E, rename: bool)
    requires
        names_of(m.entries).contains(e.name()),
    ensures
        ({
            let names = names_of(m.entries);
            let index = first_index(names, e.name());
            let merged = merge_step(m, e, rename, true);
            &&& is_first_index(names, e.name(), index)
            &&& merged.entries == m.entries.update(index, e)
            &&& merged.entries.len() == m.entries.len()
            &&& names_of(merged.entries) == names
            &&& merged.overwritten == m.overwritten.push(e.name())
            &&& merged.added == m.added
            &&& merged.renames == m.renames
        }),
{
    let names = names_of(m.entries);
    lemma_first_index_exists(names, e.name());
}

/// Only renaming fills the table of new names: where entries are overwritten,
/// or neither renamed nor overwritten, a merge records no new name.
pub proof fn lemma_no_renames<E: Named>(
    start: Merged<E>,
    incoming: Seq<E>,
    rename: bool,
    overwrite: bool,
)
    requires
        overwrite || !rename,
    ensures
        merge_all(start, incoming, rename, overwrite).renames == start.renames,
    decreases incoming.len(),
{
    if incoming.len() > 0 {
        lemma_no_renames(start, incoming.drop_last(), rename, overwrite);
    }
}

/// Whether the `i`-th incoming entry is renamed in the merge: its name is
/// taken when its turn comes, and entries are renamed and not overwritten.
pub open spec fn is_renamed_at<E: Named>(
    main: Seq<E>,
    incoming: Seq<E>,
    rename: bool,
    overwrite: bool,
    i: int,
) -> bool {
    &&& 0 <= i < incoming.len()
    &&& merge_action(
        names_of(merge_all(Merged::start(main), incoming.take(i), rename, overwrite).entries),
        incoming[i].name(),
        rename,
        overwrite,
    ) is Rename
}

/// A merge records a new name for exactly those names under which an
/// incoming entry was renamed.
pub proof fn lemma_renames_domain<E: Named>(
    main: Seq<E>,
    incoming: Seq<E>,
    rename: bool,
    overwrite: bool,
    name: Seq<char>,
)
    ensures
        merge_all(Merged::start(main), incoming, rename, overwrite).renames.contains_key(name)
            <==> exists|i: int| #[trigger]
            is_renamed_at(main, incoming, rename, overwrite, i) && incoming[i].name() == name,
    decreases incoming.len(),
{
    let start = Merged::start(main);
    if incoming.len() > 0 {
        let init = incoming.drop_last();
        let last = incoming.len() - 1;
        lemma_renames_domain(main, init, rename, overwrite, name);
        assert forall|i: int| 0 <= i < init.len() implies init.take(i) == incoming.take(i) by {}
        let merged = merge_all(start, incoming, rename, overwrite);
        let before = merge_all(start, init, rename, overwrite);
        if merged.renames.contains_key(name) {
            if before.renames.contains_key(name) {
                let i = choose|i: int| #[trigger]
                    is_renamed_at(main, init, rename, overwrite, i) && init[i].name() == name;
                assert(is_renamed_at(main, incoming, rename, overwrite, i));
            } else {
                assert(is_renamed_at(main, incoming, rename, overwrite, last));
            }
        }
        if exists|i: int| #[trigger]
            is_renamed_at(main, incoming, rename, overwrite, i) && incoming[i].name() == name {
            let i = choose|i: int| #[trigger]
                is_renamed_at(main, incoming, rename, overwrite, i) && incoming[i].name() == name;
            if i < last {
                assert(is_renamed_at(main, init, rename, overwrite, i));
            }
        }
    }
}

/// Every new name that a merge records is the name of an entry that the
/// merge added: the incoming entry of the old name, renamed.
pub proof fn lemma_renames_name_entries<E: Named>(
    main: Seq<E>,
    incoming: Seq<E>,
    rename: bool,
    overwrite: bool,
    name: Seq<char>,
)
    requires
        merge_all(Merged::start(main), incoming, rename, overwrite).renames.contains_key(name),
    ensures
        ({
            let merged = merge_all(Merged::start(main), incoming, rename, overwrite);
            let new_name = merged.renames[name];
            exists|k: int, i: int|
                main.len() <= k < merged.entries.len() && 0 <= i < incoming.len()
                    && incoming[i].name() == name && #[trigger] merged.entries[k]
                    == #[trigger] incoming[i].renamed(new_name)
        }),
    decreases incoming.len(),
{
    let start = Merged::start(main);
    let merged = merge_all(start, incoming, rename, overwrite);
    let new_name = merged.renames[name];
    if incoming.len() > 0 {
        let init = incoming.drop_last();
        let last = incoming.len() - 1;
        let before = merge_all(start, init, rename, overwrite);
        let e = incoming.last();
        lemma_merge_keeps_names(start, init, rename, overwrite);
        lemma_no_overwrite_where_renamed(start, incoming, rename, overwrite);
        let action = merge_action(names_of(before.entries), e.name(), rename, overwrite);
        if action is Rename && e.name() == name {
            let k = before.entries.len() as int;
            assert(merged.entries[k] == incoming[last].renamed(new_name));
        } else {
            lemma_renames_name_entries(main, init, rename, overwrite, name);
            let (k, i) = choose|k: int, i: int|
                main.len() <= k < before.entries.len() && 0 <= i < init.len() && init[i].name()
                    == name && #[trigger] before.entries[k] == #[trigger] init[i].renamed(
                    new_name,
                );
            assert(merged.entries[k] == before.entries[k]);
        }
    }
}

/// A merge that has recorded a new name was one that renames and does not
/// overwrite.
proof fn lemma_no_overwrite_where_renamed<E: Named>(
    start: Merged<E>,
    incoming: Seq<E>,
    rename: bool,
    overwrite: bool,
)
    requires
        merge_all(start, incoming, rename, overwrite).renames != start.renames,
    ensures
        !overwrite,
        rename,
{
    if overwrite || !rename {
        lemma_no_renames(start, incoming, rename, overwrite);
    }
}

/// Rewriting references through an empty table changes nothing.
pub proof fn lemma_remap_nothing(contexts: Seq<ContextView>)
    ensures
        remap_contexts(contexts, Map::empty(), Map::empty()) == contexts,
{
}

/// An import of entries whose names are all new, and differ from one another
/// within each kind, adds exactly these entries at the end of their
/// collections, once each and unchanged, and leaves the entries that the
/// document held, and its current selection, as they were.
pub proof fn lemma_import_new_names(
    main: KubeConfigView,
    ext: KubeConfigView,
    rename: bool,
    overwrite: bool,
)
    requires
        unique_names(ext.clusters),
        unique_names(ext.users),
        unique_names(ext.contexts),
        forall|i: int|
            0 <= i < ext.clusters.len() ==> !names_of(main.clusters).contains(
                #[trigger] ext.clusters[i].name(),
            ),
        forall|i: int|
            0 <= i < ext.users.len() ==> !names_of(main.users).contains(
                #[trigger] ext.users[i].name(),
            ),
        forall|i: int|
            0 <= i < ext.contexts.len() ==> !names_of(main.contexts).contains(
                #[trigger] ext.contexts[i].name(),
            ),
    ensures
        imported_config(main, ext, rename, overwrite, false) == (KubeConfigView {
            clusters: main.clusters + ext.clusters,
            users: main.users + ext.users,
            contexts: main.contexts + ext.contexts,
            ..main
        }),
        import_plan(main, ext, rename, overwrite).summary().clusters_added == names_of(
            ext.clusters,
        ),
        import_plan(main, ext, rename, overwrite).summary().users_added == names_of(ext.users),
        import_plan(main, ext, rename, overwrite).summary().contexts_added == names_of(
            ext.contexts,
        ),
{
    lemma_merge_new_names(main.clusters, ext.clusters, rename, overwrite);
    lemma_merge_new_names(main.users, ext.users, rename, overwrite);
    lemma_remap_nothing(ext.contexts);
    lemma_merge_new_names(main.contexts, ext.contexts, rename, overwrite);
}

/// An import of entries whose names are all taken, with neither renaming nor
/// overwriting, leaves the document as it was, and its summary shows no
/// change.
pub proof fn lemma_import_taken_names(main: KubeConfigView, ext: KubeConfigView, switch: bool)
    requires
        forall|i: int|
            0 <= i < ext.clusters.len() ==> names_of(main.clusters).contains(
                #[trigger] ext.clusters[i].name(),
            ),
        forall|i: int|
            0 <= i < ext.users.len() ==> names_of(main.users).contains(
                #[trigger] ext.users[i].name(),
            ),
        forall|i: int|
            0 <= i < ext.contexts.len() ==> names_of(main.contexts).contains(
                #[trigger] ext.contexts[i].name(),
            ),
    ensures
        imported_config(main, ext, false, false, switch) == main,
        !import_plan(main, ext, false, false).summary().has_changes(),
        import_plan(main, ext, false, false).summary().clusters_skipped == names_of(ext.clusters),
        import_plan(main, ext, false, false).summary().users_skipped == names_of(ext.users),
        import_plan(main, ext, false, false).summary().contexts_skipped == names_of(ext.contexts),
{
    lemma_merge_taken_names(main.clusters, ext.clusters);
    lemma_merge_taken_names(main.users, ext.users);
    lemma_remap_nothing(ext.contexts);
    lemma_merge_taken_names(main.contexts, ext.contexts);
}

/// An import whose summary shows no change has left the document as it was.
pub proof fn lemma_import_without_changes(
    main: KubeConfigView,
    ext: KubeConfigView,
    rename: bool,
    overwrite: bool,
    switch: bool,
)
    requires
        !import_plan(main, ext, rename, overwrite).summary().has_changes(),
    ensures
        imported_config(main, ext, rename, overwrite, switch) == main,
{
    let plan = import_plan(main, ext, rename, overwrite);
    lemma_merge_without_changes(Merged::start(main.clusters), ext.clusters, rename, overwrite);
    lemma_merge_without_changes(Merged::start(main.users), ext.users, rename, overwrite);
    lemma_merge_without_changes(
        Merged::start(main.contexts),
        remap_contexts(ext.contexts, plan.clusters.renames, plan.users.renames),
        rename,
        overwrite,
    );
}

/// An import keeps names unique: where no name stood twice in a collection
/// of the document, none does afterwards.
pub proof fn lemma_import_keeps_names_unique(
    main: KubeConfigView,
    ext: KubeConfigView,
    rename: bool,
    overwrite: bool,
    switch: bool,
)
    requires
        unique_names(main.clusters),
        unique_names(main.users),
        unique_names(main.contexts),
    ensures
        unique_names(imported_config(main, ext, rename, overwrite, switch).clusters),
        unique_names(imported_config(main, ext, rename, overwrite, switch).users),
        unique_names(imported_config(main, ext, rename, overwrite, switch).contexts),
{
    let plan = import_plan(main, ext, rename, overwrite);
    lemma_merge_keeps_names_unique(Merged::start(main.clusters), ext.clusters, rename, overwrite);
    lemma_merge_keeps_names_unique(Merged::start(main.users), ext.users, rename, overwrite);
    lemma_merge_keeps_names_unique(
        Merged::start(main.contexts),
        remap_contexts(ext.contexts, plan.clusters.renames, plan.users.renames),
        rename,
        overwrite,
    );
}

/// Only renamed clusters and users have the references to them rewritten:
/// where entries are overwritten, or neither renamed nor overwritten, the
/// incoming contexts are merged with their references as they came.
pub proof fn lemma_import_rewrites_only_renamed(
    main: KubeConfigView,
    ext: KubeConfigView,
    rename: bool,
    overwrite: bool,
)
    requires
        overwrite || !rename,
    ensures
        import_plan(main, ext, rename, overwrite).contexts == merge_all(
            Merged::start(main.contexts),
            ext.contexts,
            rename,
            overwrite,
        ),
{
    lemma_no_renames(Merged::start(main.clusters), ext.clusters, rename, overwrite);
    lemma_no_renames(Merged::start(main.users), ext.users, rename, overwrite);
    lemma_remap_nothing(ext.contexts);
}

/// A reference to a renamed cluster or user follows the renaming: in an
/// import that renames, an incoming context that refers to a cluster for
/// which a new name was recorded is merged with a reference to that new
/// name, under which the merged document holds the incoming cluster; a
/// reference to any other cluster is merged as it came. The same holds of
/// users.
pub proof fn lemma_import_follows_renames(
    main: KubeConfigView,
    ext: KubeConfigView,
    rename: bool,
    overwrite: bool,
    j: int,
)
    requires
        0 <= j < ext.contexts.len(),
    ensures
        ({
            let plan = import_plan(main, ext, rename, overwrite);
            let came = ext.contexts[j];
            let merged = remap_contexts(ext.contexts, plan.clusters.renames, plan.users.renames)[j];
            &&& merged.name == came.name
            &&& merged.context.namespace == came.context.namespace
            &&& if plan.clusters.renames.contains_key(came.context.cluster) {
                &&& merged.context.cluster == plan.clusters.renames[came.context.cluster]
                &&& names_of(plan.clusters.entries).contains(merged.context.cluster)
                &&& names_of(ext.clusters).contains(came.context.cluster)
            } else {
                merged.context.cluster == came.context.cluster
            }
            &&& if plan.users.renames.contains_key(came.context.user) {
                &&& merged.context.user == plan.users.renames[came.context.user]
                &&& names_of(plan.users.entries).contains(merged.context.user)
                &&& names_of(ext.users).contains(came.context.user)
            } else {
                merged.context.user == came.context.user
            }
        }),
{
    let plan = import_plan(main, ext, rename, overwrite);
    let came = ext.contexts[j];
    if plan.clusters.renames.contains_key(came.context.cluster) {
        lemma_renamed_entry_is_held(
            main.clusters,
            ext.clusters,
            rename,
            overwrite,
            came.context.cluster,
        );
    }
    if plan.users.renames.contains_key(came.context.user) {
        lemma_renamed_entry_is_held(main.users, ext.users, rename, overwrite, came.context.user);
    }
}

/// A new name that a merge has recorded is the name of an entry of the
/// merged collection, and the old name that of an incoming entry.
proof fn lemma_renamed_entry_is_held<E: Named>(
    main: Seq<E>,
    incoming: Seq<E>,
    rename: bool,
    overwrite: bool,
    name: Seq<char>,
)
    requires
        merge_all(Merged::start(main), incoming, rename, overwrite).renames.contains_key(name),
    ensures
        ({
            let merged = merge_all(Merged::start(main), incoming, rename, overwrite);
            &&& names_of(merged.entries).contains(merged.renames[name])
            &&& names_of(incoming).contains(name)
        }),
{
    let merged = merge_all(Merged::start(main), incoming, rename, overwrite);
    let new_name = merged.renames[name];
    lemma_renames_name_entries(main, incoming, rename, overwrite, name);
    let (k, i) = choose|k: int, i: int|
        main.len() <= k < merged.entries.len() && 0 <= i < incoming.len() && incoming[i].name()
            == name && #[trigger] merged.entries[k] == #[trigger] incoming[i].renamed(new_name);
    incoming[i].lemma_renamed(new_name);
    assert(names_of(merged.entries)[k] == new_name);
    assert(names_of(incoming)[i] == name);
}

} // verus!
