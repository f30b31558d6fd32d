use crate::commands::cleanup::{
    cleaned, orphaned_clusters, orphaned_users, referenced_clusters, referenced_users,
};
use crate::commands::delete::{
    delete_result, remaining_contexts, ReplacementView,
};
use crate::commands::rename::rename_result;
use crate::config::kubernetes::KubeConfigView;
use crate::entries::{
    first_index, is_listed, lemma_first_index_exists, lemma_names_update, listed_in, names_of,
    not_listed_in, unique_names, Named,
};
use vstd::prelude::*;

verus! {

/// Filtering twice by one test is filtering once.
pub proof fn lemma_filter_twice<A>(s: Seq<A>, pred: spec_fn(A) -> bool)
    ensures
        s.filter(pred).filter(pred) == s.filter(pred),
    decreases s.len(),
{
    reveal(Seq::filter);
    if s.len() > 0 {
        lemma_filter_twice(s.drop_last(), pred);
        if pred(s.last()) {
            s.drop_last().filter(pred).lemma_filter_push(s.last(), pred);
        }
    }
}

/// Filtering keeps a sequence whose members all pass the test.
pub proof fn lemma_filter_all<A>(s: Seq<A>, pred: spec_fn(A) -> bool)
    requires
        forall|i: int| 0 <= i < s.len() ==> pred(#[trigger] s[i]),
    ensures
        s.filter(pred) == s,
    decreases s.len(),
{
    reveal(Seq::filter);
    if s.len() > 0 {
        lemma_filter_all(s.drop_last(), pred);
    }
}

/// What passes a filter stood in the sequence and passes the test: for each
/// place of the filtered sequence, a place of the sequence that holds the
/// same member.
pub proof fn lemma_filter_members<A>(s: Seq<A>, pred: spec_fn(A) -> bool, k: int) -> (i: int)
    requires
        0 <= k < s.filter(pred).len(),
    ensures
        0 <= i < s.len(),
        s[i] == s.filter(pred)[k],
        pred(s[i]),
    decreases s.len(),
{
    reveal(Seq::filter);
    let init = s.drop_last().filter(pred);
    if pred(s.last()) && k == init.len() {
        s.len() - 1
    } else {
        lemma_filter_members(s.drop_last(), pred, k)
    }
}

/// Filtering a collection that holds no name twice leaves one that holds no
/// name twice.
pub proof fn lemma_filter_keeps_names_unique<E: Named>(entries: Seq<E>, pred: spec_fn(E) -> bool)
    requires
        unique_names(entries),
    ensures
        unique_names(entries.filter(pred)),
    decreases entries.len(),
{
    reveal(Seq::filter);
    if entries.len() > 0 {
        let init = entries.drop_last();
        assert(unique_names(init)) by {
            assert forall|i: int, j: int|
                0 <= i < init.len() && 0 <= j < init.len() && i != j implies names_of(init)[i]
                != names_of(init)[j] by {
                assert(names_of(entries)[i] != names_of(entries)[j]);
            }
        }
        lemma_filter_keeps_names_unique(init, pred);
        let kept = init.filter(pred);
        if pred(entries.last()) {
            let all = kept.push(entries.last());
            assert forall|i: int, j: int|
                0 <= i < all.len() && 0 <= j < all.len() && i != j implies names_of(all)[i]
                != names_of(all)[j] by {
                if i < kept.len() && j < kept.len() {
                    assert(names_of(kept)[i] != names_of(kept)[j]);
                } else {
                    let other = if i < kept.len() {
                        i
                    } else {
                        j
                    };
                    let at = lemma_filter_members(init, pred, other);
                    assert(names_of(entries)[at] != names_of(entries)[entries.len() - 1]);
                }
            }
        }
    }
}

/// After a context was deleted, no context of its name remains.
pub proof fn lemma_deleted_name_is_gone(
    config: KubeConfigView,
    name: Seq<char>,
    replacement: ReplacementView,
    cleanup: bool,
)
    requires
        delete_result(config, name, replacement, cleanup) is Ok,
    ensures
        ({
            let after = delete_result(config, name, replacement, cleanup)->Ok_0;
            &&& after.contexts == remaining_contexts(config, name)
            &&& !names_of(after.contexts).contains(name)
            &&& after.contexts.len() < config.contexts.len()
        }),
{
    let others = remaining_contexts(config, name);
    let pred = is_listed(seq![name], false);
    if names_of(others).contains(name) {
        let k = choose|k: int| 0 <= k < others.len() && names_of(others)[k] == name;
        lemma_filter_members(config.contexts, pred, k);
        assert(seq![name][0] == name);
    }
    lemma_remaining_is_shorter(config, name);
}

/// A filter that a member does not pass leaves fewer members.
proof fn lemma_filter_drops<A>(s: Seq<A>, pred: spec_fn(A) -> bool, i: int)
    requires
        0 <= i < s.len(),
        !pred(s[i]),
    ensures
        s.filter(pred).len() < s.len(),
    decreases s.len(),
{
    reveal(Seq::filter);
    s.drop_last().lemma_filter_len(pred);
    if i < s.len() - 1 {
        lemma_filter_drops(s.drop_last(), pred, i);
    }
}

/// Deleting a context that stands in the document leaves fewer contexts.
proof fn lemma_remaining_is_shorter(config: KubeConfigView, name: Seq<char>)
    requires
        names_of(config.contexts).contains(name),
    ensures
        remaining_contexts(config, name).len() < config.contexts.len(),
{
    let i = choose|i: int| 0 <= i < config.contexts.len() && names_of(config.contexts)[i] == name;
    assert(seq![name][0] == name);
    lemma_filter_drops(config.contexts, is_listed(seq![name], false), i);
}

/// Deleting the current context when exactly one other context remains, and
/// the first remaining one is to be selected, selects that other context;
/// it is the only context left.
pub proof fn lemma_delete_current_selects_other(
    config: KubeConfigView,
    name: Seq<char>,
    cleanup: bool,
)
    requires
        config.current_context == name,
        names_of(config.contexts).contains(name),
        remaining_contexts(config, name).len() == 1,
    ensures
        ({
            let other = remaining_contexts(config, name)[0];
            let result = delete_result(config, name, ReplacementView::First, cleanup);
            &&& result is Ok
            &&& result->Ok_0.current_context == other.name
            &&& result->Ok_0.contexts == seq![other]
            &&& other.name != name
            &&& !names_of(result->Ok_0.contexts).contains(name)
        }),
{
    lemma_deleted_name_is_gone(config, name, ReplacementView::First, cleanup);
}

/// A deletion leaves the current selection pointing at a context, where it
/// did so before and a context remains; where none remains the selection is
/// empty.
pub proof fn lemma_delete_keeps_selection(
    config: KubeConfigView,
    name: Seq<char>,
    replacement: ReplacementView,
    cleanup: bool,
)
    requires
        names_of(config.contexts).contains(config.current_context),
        delete_result(config, name, replacement, cleanup) is Ok,
    ensures
        ({
            let after = delete_result(config, name, replacement, cleanup)->Ok_0;
            if after.contexts.len() > 0 {
                names_of(after.contexts).contains(after.current_context)
            } else {
                after.current_context == Seq::<char>::empty()
            }
        }),
{
    let others = remaining_contexts(config, name);
    let pred = is_listed(seq![name], false);
    if config.current_context != name {
        let i = choose|i: int|
            0 <= i < config.contexts.len() && names_of(config.contexts)[i]
                == config.current_context;
        config.contexts.lemma_filter_contains(pred, i);
        let k = choose|k: int| 0 <= k < others.len() && others[k] == config.contexts[i];
        assert(names_of(others)[k] == config.current_context);
    }
}

/// Cleaning up twice is cleaning up once: after a cleanup, another removes
/// nothing.
pub proof fn lemma_cleanup_idempotent(config: KubeConfigView)
    ensures
        cleaned(cleaned(config)) == cleaned(config),
        orphaned_clusters(cleaned(config)) == Seq::<Seq<char>>::empty(),
        orphaned_users(cleaned(config)) == Seq::<Seq<char>>::empty(),
{
    let clusters = referenced_clusters(config.contexts);
    let users = referenced_users(config.contexts);
    lemma_filter_twice(config.clusters, is_listed(clusters, true));
    lemma_filter_twice(config.users, is_listed(users, true));
    lemma_filter_none_left(config.clusters, clusters);
    lemma_filter_none_left(config.users, users);
}

/// Among the entries whose names are listed, none is unlisted.
proof fn lemma_filter_none_left<E: Named>(entries: Seq<E>, names: Seq<Seq<char>>)
    ensures
        not_listed_in(listed_in(entries, names), names) == Seq::<E>::empty(),
    decreases entries.len(),
{
    reveal(Seq::filter);
    if entries.len() > 0 {
        lemma_filter_none_left(entries.drop_last(), names);
        if names.contains(entries.last().name()) {
            listed_in(entries.drop_last(), names).lemma_filter_push(
                entries.last(),
                is_listed(names, false),
            );
        }
    }
}

/// A cleanup removes every cluster and every user that no context refers
/// to.
pub proof fn lemma_cleanup_removes_unreferenced(config: KubeConfigView, name: Seq<char>)
    ensures
        !referenced_clusters(config.contexts).contains(name) ==> !names_of(
            cleaned(config).clusters,
        ).contains(name),
        !referenced_users(config.contexts).contains(name) ==> !names_of(
            cleaned(config).users,
        ).contains(name),
{
}

/// A cleanup keeps every cluster and every user that a context refers to,
/// and removes nothing where all are referred to.
pub proof fn lemma_cleanup_keeps_referenced(config: KubeConfigView)
    ensures
        forall|i: int|
            0 <= i < config.clusters.len() && referenced_clusters(config.contexts).contains(
                config.clusters[i].name,
            ) ==> cleaned(config).clusters.contains(#[trigger] config.clusters[i]),
        forall|i: int|
            0 <= i < config.users.len() && referenced_users(config.contexts).contains(
                config.users[i].name,
            ) ==> cleaned(config).users.contains(#[trigger] config.users[i]),
        orphaned_clusters(config).len() == 0 && orphaned_users(config).len() == 0 ==> cleaned(
            config,
        ) == config,
{
    let clusters = referenced_clusters(config.contexts);
    let users = referenced_users(config.contexts);
    if orphaned_clusters(config).len() == 0 && orphaned_users(config).len() == 0 {
        lemma_nothing_unlisted(config.clusters, clusters);
        lemma_nothing_unlisted(config.users, users);
    }
}

/// Where no entry is unlisted, all entries are listed.
proof fn lemma_nothing_unlisted<E: Named>(entries: Seq<E>, names: Seq<Seq<char>>)
    requires
        names_of(not_listed_in(entries, names)).len() == 0,
    ensures
        listed_in(entries, names) == entries,
{
    assert forall|i: int| 0 <= i < entries.len() implies is_listed(names, true)(
        #[trigger] entries[i],
    ) by {
        if !names.contains(entries[i].name()) {
            entries.lemma_filter_contains(is_listed(names, false), i);
        }
    }
    lemma_filter_all(entries, is_listed(names, true));
}

/// Deleting, with cleanup, the contexts that refer to a cluster removes that
/// cluster, and likewise for a user: where every context that refers to it
/// has the deleted name, it is gone afterwards.
pub proof fn lemma_delete_with_cleanup_removes_orphans(
    config: KubeConfigView,
    name: Seq<char>,
    replacement: ReplacementView,
    cluster: Seq<char>,
    user: Seq<char>,
)
    requires
        delete_result(config, name, replacement, true) is Ok,
    ensures
        ({
            let after = delete_result(config, name, replacement, true)->Ok_0;
            &&& (forall|i: int|
                0 <= i < config.contexts.len() && config.contexts[i].context.cluster == cluster
                    ==> #[trigger] config.contexts[i].name == name) ==> !names_of(
                after.clusters,
            ).contains(cluster)
            &&& (forall|i: int|
                0 <= i < config.contexts.len() && config.contexts[i].context.user == user
                    ==> #[trigger] config.contexts[i].name == name) ==> !names_of(
                after.users,
            ).contains(user)
        }),
{
    let others = remaining_contexts(config, name);
    let pred = is_listed(seq![name], false);
    assert(seq![name][0] == name);
    if forall|i: int|
        0 <= i < config.contexts.len() && config.contexts[i].context.cluster == cluster
            ==> #[trigger] config.contexts[i].name == name {
        if referenced_clusters(others).contains(cluster) {
            let k = choose|k: int|
                0 <= k < others.len() && referenced_clusters(others)[k] == cluster;
            lemma_filter_members(config.contexts, pred, k);
        }
    }
    if forall|i: int|
        0 <= i < config.contexts.len() && config.contexts[i].context.user == user
            ==> #[trigger] config.contexts[i].name == name {
        if referenced_users(others).contains(user) {
            let k = choose|k: int| 0 <= k < others.len() && referenced_users(others)[k] == user;
            lemma_filter_members(config.contexts, pred, k);
        }
    }
}

/// Deleting and cleaning up keep names unique.
pub proof fn lemma_delete_keeps_names_unique(
    config: KubeConfigView,
    name: Seq<char>,
    replacement: ReplacementView,
    cleanup: bool,
)
    requires
        unique_names(config.clusters),
        unique_names(config.users),
        unique_names(config.contexts),
        delete_result(config, name, replacement, cleanup) is Ok,
    ensures
        ({
            let after = delete_result(config, name, replacement, cleanup)->Ok_0;
            unique_names(after.clusters) && unique_names(after.users) && unique_names(
                after.contexts,
            )
        }),
{
    let others = remaining_contexts(config, name);
    lemma_filter_keeps_names_unique(config.contexts, is_listed(seq![name], false));
    lemma_filter_keeps_names_unique(config.clusters, is_listed(referenced_clusters(others), true));
    lemma_filter_keeps_names_unique(config.users, is_listed(referenced_users(others), true));
}

/// A renaming that succeeds changes one name and nothing else: the document
/// has as many contexts as before, the renamed one in its old place, under
/// the new name and with the binding it had; the old name is gone; names
/// stay unique.
pub proof fn lemma_rename_changes_one_name(
    config: KubeConfigView,
    old_name: Seq<char>,
    new_name: Seq<char>,
)
    requires
        rename_result(config, old_name, new_name) is Ok,
    ensures
        ({
            let after = rename_result(config, old_name, new_name)->Ok_0;
            let index = first_index(names_of(config.contexts), old_name);
            &&& 0 <= index < config.contexts.len()
            &&& names_of(after.contexts) == names_of(config.contexts).update(index, new_name)
            &&& after.contexts[index].context == config.contexts[index].context
            &&& after.clusters == config.clusters
            &&& after.users == config.users
            &&& names_of(after.contexts).contains(new_name)
            &&& unique_names(config.contexts) ==> unique_names(after.contexts) && !names_of(
                after.contexts,
            ).contains(old_name)
        }),
{
    let names = names_of(config.contexts);
    let after = rename_result(config, old_name, new_name)->Ok_0;
    lemma_first_index_exists(names, old_name);
    let index = first_index(names, old_name);
    let renamed = config.contexts[index].renamed(new_name);
    config.contexts[index].lemma_renamed(new_name);
    lemma_names_update(config.contexts, index, renamed);
    assert(names_of(after.contexts)[index] == new_name);
}

/// A renaming to a name that a context has already is refused, and so is a
/// renaming of a context to its own name.
pub proof fn lemma_rename_refused(config: KubeConfigView, old_name: Seq<char>, new_name: Seq<char>)
    ensures
        names_of(config.contexts).contains(new_name) ==> rename_result(
            config,
            old_name,
            new_name,
        ) is Err,
        old_name == new_name ==> rename_result(config, old_name, new_name) is Err,
{
}

/// A cleanup keeps names unique.
pub proof fn lemma_cleanup_keeps_names_unique(config: KubeConfigView)
    requires
        unique_names(config.clusters),
        unique_names(config.users),
    ensures
        unique_names(cleaned(config).clusters),
        unique_names(cleaned(config).users),
{
    lemma_filter_keeps_names_unique(
        config.clusters,
        is_listed(referenced_clusters(config.contexts), true),
    );
    lemma_filter_keeps_names_unique(
        config.users,
        is_listed(referenced_users(config.contexts), true),
    );
}

/// A renaming keeps the current selection on its context: where the
/// selection was the name of a context before, it is one afterwards.
pub proof fn lemma_rename_keeps_selection(
    config: KubeConfigView,
    old_name: Seq<char>,
    new_name: Seq<char>,
)
    requires
        names_of(config.contexts).contains(config.current_context),
        rename_result(config, old_name, new_name) is Ok,
    ensures
        ({
            let after = rename_result(config, old_name, new_name)->Ok_0;
            names_of(after.contexts).contains(after.current_context)
        }),
{
    let names = names_of(config.contexts);
    let after = rename_result(config, old_name, new_name)->Ok_0;
    lemma_rename_changes_one_name(config, old_name, new_name);
    if config.current_context != old_name {
        let k = choose|k: int| 0 <= k < names.len() && names[k] == config.current_context;
        lemma_first_index_exists(names, old_name);
        assert(names_of(after.contexts)[k] == config.current_context);
    }
}

} // verus!
