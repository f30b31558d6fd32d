use crate::commands::add::{
    can_fabricate_context, import_plan, imported_config, merge_all, remap_contexts, remap_name,
    with_fabricated_context, Merged,
};
use crate::commands::cascade_laws::lemma_filter_members;
use crate::commands::merge_laws::{
    is_renamed_at, lemma_import_new_names, lemma_merge_keeps_names, lemma_no_renames,
    lemma_renames_domain,
};
use crate::config::kubernetes::{ContextDataView, ContextView, KubeConfigView};
use crate::entries::{
    first_index, is_first_index, is_listed, lemma_first_index_exists, names_of, not_listed_in,
    unique_names, Named,
};
use crate::naming::{
    candidate_name, fresh_name, lemma_candidate_is_first, lemma_fresh_name_first,
    lemma_fresh_name_is_free,
};
use vstd::prelude::*;

verus! {

/// The names that the collection holds when the turn of the `j`-th incoming
/// entry comes.
pub open spec fn names_at_turn<E: Named>(
    main: Seq<E>,
    incoming: Seq<E>,
    rename: bool,
    overwrite: bool,
    j: int,
) -> Seq<Seq<char>> {
    names_of(merge_all(Merged::start(main), incoming.take(j), rename, overwrite).entries)
}

/// The `j`-th incoming entry as a merge that renames adds it: under a fresh
/// name where its name is taken when its turn comes, else as it came.
pub open spec fn placed_renaming<E: Named>(main: Seq<E>, incoming: Seq<E>, j: int) -> E {
    let names = names_at_turn(main, incoming, true, false, j);
    if names.contains(incoming[j].name()) {
        incoming[j].renamed(fresh_name(incoming[j].name(), names))
    } else {
        incoming[j]
    }
}

/// The collection after a merge that overwrites, as far as it reaches: in the
/// place of the first entry of each name that an incoming entry has stands
/// that incoming entry; every other entry is as it was.
pub open spec fn overwritten<E: Named>(main: Seq<E>, incoming: Seq<E>) -> Seq<E> {
    Seq::new(
        main.len(),
        |i: int|
            if names_of(incoming).contains(main[i].name()) && first_index(
                names_of(main),
                main[i].name(),
            ) == i {
                incoming[first_index(names_of(incoming), main[i].name())]
            } else {
                main[i]
            },
    )
}

/// The collection after a merge, said at once for all incoming entries.
/// A merge that overwrites puts each incoming entry whose name is taken in
/// the place of the first entry of that name. One that renames adds every
/// incoming entry at the end, under a fresh name where its name is taken.
/// One that does neither leaves the collection as it was. Incoming entries
/// whose names are new are added at the end, in their order.
pub open spec fn merged_entries<E: Named>(
    main: Seq<E>,
    incoming: Seq<E>,
    rename: bool,
    overwrite: bool,
) -> Seq<E> {
    if overwrite {
        overwritten(main, incoming) + not_listed_in(incoming, names_of(main))
    } else if rename {
        main + Seq::new(incoming.len(), |j: int| placed_renaming(main, incoming, j))
    } else {
        main + not_listed_in(incoming, names_of(main))
    }
}

/// A name that stands in a start of a list has its first place in the list
/// where it has it in the start.
pub proof fn lemma_first_index_of_start(
    start: Seq<Seq<char>>,
    all: Seq<Seq<char>>,
    name: Seq<char>,
)
    requires
        start.len() <= all.len(),
        all.take(start.len() as int) == start,
        start.contains(name),
    ensures
        first_index(all, name) == first_index(start, name),
        is_first_index(all, name, first_index(start, name)),
{
    lemma_first_index_exists(start, name);
    let at = first_index(start, name);
    assert forall|i: int| 0 <= i < start.len() implies all[i] == start[i] by {}
    assert(is_first_index(all, name, at));
}

/// The names of the incoming entries that are not listed are names of
/// incoming entries.
proof fn lemma_unlisted_names<E: Named>(incoming: Seq<E>, names: Seq<Seq<char>>, name: Seq<char>)
    requires
        names_of(not_listed_in(incoming, names)).contains(name),
    ensures
        names_of(incoming).contains(name),
        !names.contains(name),
{
    let kept = not_listed_in(incoming, names);
    let k = choose|k: int| 0 <= k < kept.len() && names_of(kept)[k] == name;
    let i = lemma_filter_members(incoming, is_listed(names, false), k);
    assert(names_of(incoming)[i] == name);
}

/// Without renaming, and with incoming names that differ from one another,
/// the name of the incoming entry whose turn comes is taken exactly if the
/// collection held it from the start.
proof fn lemma_taken_at_turn<E: Named>(main: Seq<E>, head: Seq<E>, incoming: Seq<E>)
    requires
        incoming.len() > 0,
        unique_names(incoming),
        names_of(head) == names_of(main),
    ensures
        names_of(head + not_listed_in(incoming.drop_last(), names_of(main))).contains(
            incoming.last().name(),
        ) <==> names_of(main).contains(incoming.last().name()),
{
    let init = incoming.drop_last();
    let tail = not_listed_in(init, names_of(main));
    let all = names_of(head + tail);
    let name = incoming.last().name();
    if names_of(main).contains(name) {
        let k = choose|k: int| 0 <= k < names_of(main).len() && names_of(main)[k] == name;
        assert(all[k] == name);
    }
    if all.contains(name) && !names_of(main).contains(name) {
        let k = choose|k: int| 0 <= k < all.len() && all[k] == name;
        if k < head.len() {
            assert(names_of(head)[k] == name);
        } else {
            assert(names_of(tail)[k - head.len()] == name);
            lemma_unlisted_names(init, names_of(main), name);
            let i = choose|i: int| 0 <= i < init.len() && names_of(init)[i] == name;
            assert(names_of(incoming)[i] == name);
            assert(names_of(incoming)[incoming.len() - 1] == name);
        }
    }
}

/// A start of a list of entries with names that differ from one another has
/// names that differ from one another.
proof fn lemma_unique_start<E: Named>(incoming: Seq<E>)
    requires
        incoming.len() > 0,
        unique_names(incoming),
    ensures
        unique_names(incoming.drop_last()),
{
    let init = incoming.drop_last();
    assert forall|i: int, j: int|
        0 <= i < init.len() && 0 <= j < init.len() && i != j implies names_of(init)[i]
        != names_of(init)[j] by {
        assert(names_of(incoming)[i] != names_of(incoming)[j]);
    }
}

/// One incoming entry more changes what a merge overwrites only in the place
/// of the first entry of its name, where it then stands itself.
proof fn lemma_overwritten_next<E: Named>(main: Seq<E>, incoming: Seq<E>)
    requires
        incoming.len() > 0,
        unique_names(incoming),
    ensures
        ({
            let e = incoming.last();
            let before = overwritten(main, incoming.drop_last());
            overwritten(main, incoming) == if names_of(main).contains(e.name()) {
                before.update(first_index(names_of(main), e.name()), e)
            } else {
                before
            }
        }),
{
    let init = incoming.drop_last();
    let e = incoming.last();
    let last = incoming.len() - 1;
    let before = overwritten(main, init);
    let after = overwritten(main, incoming);
    assert(is_first_index(names_of(incoming), e.name(), last));
    assert forall|n: Seq<char>| n != e.name() implies (names_of(incoming).contains(n)
        <==> names_of(init).contains(n)) && (names_of(init).contains(n) ==> first_index(
        names_of(incoming),
        n,
    ) == first_index(names_of(init), n)) by {
        if names_of(incoming).contains(n) {
            let k = choose|k: int| 0 <= k < incoming.len() && names_of(incoming)[k] == n;
            assert(names_of(init)[k] == n);
        }
        if names_of(init).contains(n) {
            assert(names_of(incoming).take(init.len() as int) =~= names_of(init));
            lemma_first_index_of_start(names_of(init), names_of(incoming), n);
        }
    }
    let expected = if names_of(main).contains(e.name()) {
        before.update(first_index(names_of(main), e.name()), e)
    } else {
        before
    };
    if names_of(main).contains(e.name()) {
        lemma_first_index_exists(names_of(main), e.name());
    }
    assert forall|i: int| 0 <= i < main.len() implies after[i] == expected[i] by {
        let n = main[i].name();
        assert(names_of(main)[i] == n);
        if n != e.name() && names_of(init).contains(n) {
            lemma_first_index_exists(names_of(init), n);
        }
    }
}

/// A merge, said at once for all incoming entries: its result is what
/// `merged_entries` says. Where the merge overwrites or skips, the incoming
/// names are to differ from one another.
pub proof fn lemma_merge_as_a_whole<E: Named>(
    main: Seq<E>,
    incoming: Seq<E>,
    rename: bool,
    overwrite: bool,
)
    requires
        overwrite || !rename ==> unique_names(incoming),
    ensures
        merge_all(Merged::start(main), incoming, rename, overwrite).entries == merged_entries(
            main,
            incoming,
            rename,
            overwrite,
        ),
    decreases incoming.len(),
{
    let start = Merged::start(main);
    reveal(Seq::filter);
    if incoming.len() > 0 {
        let init = incoming.drop_last();
        let e = incoming.last();
        let before = merge_all(start, init, rename, overwrite);
        if overwrite || !rename {
            lemma_unique_start(incoming);
        }
        lemma_merge_as_a_whole(main, init, rename, overwrite);
        lemma_merge_keeps_names(start, init, rename, overwrite);
        if overwrite || !rename {
            let head = if overwrite {
                overwritten(main, init)
            } else {
                main
            };
            assert(names_of(head) =~= names_of(main));
            lemma_taken_at_turn(main, head, incoming);
            if overwrite {
                lemma_overwritten_next(main, incoming);
                if names_of(main).contains(e.name()) {
                    lemma_first_index_of_start(
                        names_of(main),
                        names_of(before.entries),
                        e.name(),
                    );
                }
            }
        } else {
            assert forall|j: int| 0 <= j < init.len() implies placed_renaming(main, init, j)
                == placed_renaming(main, incoming, j) by {
                assert(init.take(j) =~= incoming.take(j));
            }
        }
    }
}

/// A name that an entry called `origin` can come to stand under in a merge
/// that renames: its own, or that of a try for it.
pub open spec fn is_name_from(name: Seq<char>, origin: Seq<char>) -> bool {
    name == origin || exists|m: nat| m >= 1 && name == #[trigger] candidate_name(origin, m)
}

/// In a merge that renames, the collection holds after the first incoming
/// entries what it held, and each of these entries as it was added.
pub proof fn lemma_rename_merge_so_far<E: Named>(main: Seq<E>, incoming: Seq<E>, turn: int)
    requires
        0 <= turn <= incoming.len(),
    ensures
        ({
            let so_far = merge_all(Merged::start(main), incoming.take(turn), true, false).entries;
            &&& so_far.len() == main.len() + turn
            &&& so_far.take(main.len() as int) == main
            &&& forall|j: int|
                0 <= j < turn ==> so_far[main.len() + j] == #[trigger] placed_renaming(
                    main,
                    incoming,
                    j,
                )
        }),
{
    let first = incoming.take(turn);
    lemma_merge_as_a_whole(main, first, true, false);
    let so_far = merge_all(Merged::start(main), first, true, false).entries;
    assert forall|j: int|
        0 <= j < turn implies so_far[main.len() + j] == #[trigger] placed_renaming(
        main,
        incoming,
        j,
    ) by {
        assert(first.take(j) =~= incoming.take(j));
    }
}

/// In a merge that renames, every name that the collection holds when a turn
/// comes is one that it held from the start, or one that an earlier incoming
/// entry came to stand under.
pub proof fn lemma_names_at_turn<E: Named>(
    main: Seq<E>,
    incoming: Seq<E>,
    turn: int,
    name: Seq<char>,
)
    requires
        0 <= turn <= incoming.len(),
        names_at_turn(main, incoming, true, false, turn).contains(name),
    ensures
        names_of(main).contains(name) || exists|k: int|
            0 <= k < turn && is_name_from(name, #[trigger] incoming[k].name()),
{
    lemma_rename_merge_so_far(main, incoming, turn);
    let names = names_at_turn(main, incoming, true, false, turn);
    let at = choose|at: int| 0 <= at < names.len() && names[at] == name;
    let so_far = merge_all(Merged::start(main), incoming.take(turn), true, false).entries;
    if at < main.len() {
        assert(names_of(main)[at] == name);
    } else {
        let k = at - main.len();
        assert(so_far[main.len() + k] == placed_renaming(main, incoming, k));
        let earlier = names_at_turn(main, incoming, true, false, k);
        if earlier.contains(incoming[k].name()) {
            lemma_fresh_name_is_free(incoming[k].name(), earlier);
            incoming[k].lemma_renamed(fresh_name(incoming[k].name(), earlier));
        }
    }
}

/// Importing with renaming: where the collection holds an entry called `X`
/// and none called `X-imported`, and no incoming entry is called
/// `X-imported`, the first incoming entry called `X` is added as
/// `X-imported`, and no other entry of the result has this name. The
/// collection keeps its entries in their places, and every incoming entry is
/// added, so that the result is as long as the two together.
pub proof fn lemma_rename_merge_imports<E: Named>(main: Seq<E>, incoming: Seq<E>, j: int)
    requires
        0 <= j < incoming.len(),
        names_of(main).contains(incoming[j].name()),
        forall|k: int| 0 <= k < j ==> #[trigger] incoming[k].name() != incoming[j].name(),
        !names_of(main).contains(incoming[j].name() + "-imported"@),
        !names_of(incoming).contains(incoming[j].name() + "-imported"@),
    ensures
        ({
            let merged = merge_all(Merged::start(main), incoming, true, false).entries;
            let imported = incoming[j].name() + "-imported"@;
            &&& merged.len() == main.len() + incoming.len()
            &&& merged.take(main.len() as int) == main
            &&& merged[main.len() + j] == incoming[j].renamed(imported)
            &&& forall|k: int|
                0 <= k < merged.len() && #[trigger] names_of(merged)[k] == imported ==> k
                    == main.len() + j
        }),
{
    let x = incoming[j].name();
    let imported = x + "-imported"@;
    let merged = merge_all(Merged::start(main), incoming, true, false).entries;
    assert(incoming.take(incoming.len() as int) =~= incoming);
    lemma_rename_merge_so_far(main, incoming, incoming.len() as int);
    lemma_rename_merge_so_far(main, incoming, j);
    let names = names_at_turn(main, incoming, true, false, j);
    lemma_imported_not_before(main, incoming, j);
    assert(names.contains(x)) by {
        let at = choose|at: int| 0 <= at < main.len() && names_of(main)[at] == x;
        assert(names[at] == x);
    }
    lemma_fresh_name_first(x, names);
    incoming[j].lemma_renamed(imported);
    assert(merged[main.len() + j] == placed_renaming(main, incoming, j));
    assert forall|k: int|
        0 <= k < merged.len() && #[trigger] names_of(merged)[k] == imported implies k
        == main.len() + j by {
        if k < main.len() {
            assert(names_of(main)[k] == imported);
        } else if k < main.len() + j {
            let so_far = merge_all(Merged::start(main), incoming.take(j), true, false).entries;
            assert(so_far[main.len() + (k - main.len())] == placed_renaming(
                main,
                incoming,
                k - main.len(),
            ));
            assert(names[k] == imported);
        } else if k > main.len() + j {
            let t = k - main.len();
            assert(merged[main.len() + t] == placed_renaming(main, incoming, t));
            let later = names_at_turn(main, incoming, true, false, t);
            lemma_rename_merge_so_far(main, incoming, t);
            assert(later[main.len() + j] == imported);
            if later.contains(incoming[t].name()) {
                lemma_fresh_name_is_free(incoming[t].name(), later);
                incoming[t].lemma_renamed(fresh_name(incoming[t].name(), later));
            }
        }
    }
}

/// Before the turn of the first incoming entry called `X`, no entry is
/// called `X-imported`, if none was from the start and no incoming entry is.
proof fn lemma_imported_not_before<E: Named>(main: Seq<E>, incoming: Seq<E>, j: int)
    requires
        0 <= j < incoming.len(),
        forall|k: int| 0 <= k < j ==> #[trigger] incoming[k].name() != incoming[j].name(),
        !names_of(main).contains(incoming[j].name() + "-imported"@),
        !names_of(incoming).contains(incoming[j].name() + "-imported"@),
    ensures
        !names_at_turn(main, incoming, true, false, j).contains(
            incoming[j].name() + "-imported"@,
        ),
{
    let x = incoming[j].name();
    let imported = x + "-imported"@;
    if names_at_turn(main, incoming, true, false, j).contains(imported) {
        lemma_names_at_turn(main, incoming, j, imported);
        let k = choose|k: int| 0 <= k < j && is_name_from(imported, #[trigger] incoming[k].name());
        if imported == incoming[k].name() {
            assert(names_of(incoming)[k] == imported);
        } else {
            let m = choose|m: nat|
                m >= 1 && imported == #[trigger] candidate_name(incoming[k].name(), m);
            lemma_candidate_is_first(x, incoming[k].name(), m);
        }
    }
}

/// Importing with overwriting: an incoming entry whose name is taken stands
/// afterwards in the place of the first entry of that name; every entry
/// whose name no incoming entry has is as it was; the names that the
/// collection held keep their places.
pub proof fn lemma_overwrite_merge_replaces<E: Named>(main: Seq<E>, incoming: Seq<E>, rename: bool)
    requires
        unique_names(incoming),
    ensures
        ({
            let merged = merge_all(Merged::start(main), incoming, rename, true).entries;
            &&& merged.len() == main.len() + not_listed_in(incoming, names_of(main)).len()
            &&& names_of(merged).take(main.len() as int) == names_of(main)
            &&& forall|j: int|
                0 <= j < incoming.len() && names_of(main).contains(
                    #[trigger] incoming[j].name(),
                ) ==> merged[first_index(names_of(main), incoming[j].name())] == incoming[j]
            &&& forall|i: int|
                0 <= i < main.len() && !names_of(incoming).contains(#[trigger] main[i].name())
                    ==> merged[i] == main[i]
        }),
{
    let merged = merge_all(Merged::start(main), incoming, rename, true).entries;
    lemma_merge_as_a_whole(main, incoming, rename, true);
    assert forall|j: int|
        0 <= j < incoming.len() && names_of(main).contains(
            #[trigger] incoming[j].name(),
        ) implies merged[first_index(names_of(main), incoming[j].name())] == incoming[j] by {
        let name = incoming[j].name();
        lemma_first_index_exists(names_of(main), name);
        assert(names_of(incoming)[j] == name);
        lemma_first_index_exists(names_of(incoming), name);
    }
}

/// An import, said at once for all incoming entries: each collection of the
/// document is afterwards what `merged_entries` says, the contexts with the
/// incoming contexts as their references were rewritten. Where the import
/// overwrites or skips, the incoming names of each kind are to differ from
/// one another.
pub proof fn lemma_import_as_a_whole(
    main: KubeConfigView,
    ext: KubeConfigView,
    rename: bool,
    overwrite: bool,
    switch: bool,
)
    requires
        overwrite || !rename ==> unique_names(ext.clusters) && unique_names(ext.users)
            && unique_names(ext.contexts),
    ensures
        ({
            let plan = import_plan(main, ext, rename, overwrite);
            let after = imported_config(main, ext, rename, overwrite, switch);
            let rewritten = remap_contexts(ext.contexts, plan.clusters.renames, plan.users.renames);
            &&& after.clusters == merged_entries(main.clusters, ext.clusters, rename, overwrite)
            &&& after.users == merged_entries(main.users, ext.users, rename, overwrite)
            &&& after.contexts == merged_entries(main.contexts, rewritten, rename, overwrite)
            &&& names_of(rewritten) == names_of(ext.contexts)
        }),
{
    let plan = import_plan(main, ext, rename, overwrite);
    let rewritten = remap_contexts(ext.contexts, plan.clusters.renames, plan.users.renames);
    assert(names_of(rewritten) =~= names_of(ext.contexts));
    lemma_merge_as_a_whole(main.clusters, ext.clusters, rename, overwrite);
    lemma_merge_as_a_whole(main.users, ext.users, rename, overwrite);
    lemma_merge_as_a_whole(main.contexts, rewritten, rename, overwrite);
}

/// The name that a reference to the entry called `name` goes by after a
/// merge that renames: the fresh name that the incoming entry of this name
/// was given, where its name was taken when its turn came; else the name
/// itself.
pub open spec fn renamed_reference<E: Named>(
    main: Seq<E>,
    incoming: Seq<E>,
    name: Seq<char>,
) -> Seq<char> {
    let turn = first_index(names_of(incoming), name);
    let names = names_at_turn(main, incoming, true, false, turn);
    if names_of(incoming).contains(name) && names.contains(name) {
        fresh_name(name, names)
    } else {
        name
    }
}

/// In a merge that renames, with incoming names that differ from one
/// another, the table of new names holds for an incoming entry whose name
/// was taken the fresh name that it was given.
pub proof fn lemma_renames_value<E: Named>(main: Seq<E>, incoming: Seq<E>, j: int)
    requires
        unique_names(incoming),
        0 <= j < incoming.len(),
        names_at_turn(main, incoming, true, false, j).contains(incoming[j].name()),
    ensures
        ({
            let renames = merge_all(Merged::start(main), incoming, true, false).renames;
            &&& renames.contains_key(incoming[j].name())
            &&& renames[incoming[j].name()] == fresh_name(
                incoming[j].name(),
                names_at_turn(main, incoming, true, false, j),
            )
        }),
    decreases incoming.len(),
{
    let init = incoming.drop_last();
    let last = incoming.len() - 1;
    if j < last {
        lemma_unique_start(incoming);
        assert(init.take(j) =~= incoming.take(j));
        lemma_renames_value(main, init, j);
        assert(names_of(incoming)[j] != names_of(incoming)[last]);
    }
}

/// In a merge that renames, with incoming names that differ from one
/// another, a reference is rewritten to what `renamed_reference` says.
pub proof fn lemma_renamed_reference<E: Named>(main: Seq<E>, incoming: Seq<E>, name: Seq<char>)
    requires
        unique_names(incoming),
    ensures
        remap_name(merge_all(Merged::start(main), incoming, true, false).renames, name)
            == renamed_reference(main, incoming, name),
{
    let renames = merge_all(Merged::start(main), incoming, true, false).renames;
    lemma_renames_domain(main, incoming, true, false, name);
    if names_of(incoming).contains(name) {
        lemma_first_index_exists(names_of(incoming), name);
        let turn = first_index(names_of(incoming), name);
        if names_at_turn(main, incoming, true, false, turn).contains(name) {
            lemma_renames_value(main, incoming, turn);
        } else if renames.contains_key(name) {
            let j = choose|j: int| #[trigger]
                is_renamed_at(main, incoming, true, false, j) && incoming[j].name() == name;
            if j != turn {
                assert(names_of(incoming)[j] != names_of(incoming)[turn]);
            }
        }
    } else if renames.contains_key(name) {
        let j = choose|j: int| #[trigger]
            is_renamed_at(main, incoming, true, false, j) && incoming[j].name() == name;
        assert(names_of(incoming)[j] == name);
    }
}

/// What an import makes of the references of an incoming context, where the
/// incoming clusters have names that differ from one another and so have the
/// incoming users: in an import that renames and does not overwrite, a
/// reference to an incoming cluster or user that was renamed goes to its
/// fresh name; every other reference, and every reference in any other
/// import, stays as it came; name and namespace stay in any case.
pub proof fn lemma_import_rewrites_references(
    main: KubeConfigView,
    ext: KubeConfigView,
    rename: bool,
    overwrite: bool,
    j: int,
)
    requires
        unique_names(ext.clusters),
        unique_names(ext.users),
        0 <= j < ext.contexts.len(),
    ensures
        ({
            let plan = import_plan(main, ext, rename, overwrite);
            let came = ext.contexts[j];
            remap_contexts(ext.contexts, plan.clusters.renames, plan.users.renames)[j] == if rename
                && !overwrite {
                ContextView {
                    context: ContextDataView {
                        cluster: renamed_reference(
                            main.clusters,
                            ext.clusters,
                            came.context.cluster,
                        ),
                        user: renamed_reference(main.users, ext.users, came.context.user),
                        ..came.context
                    },
                    ..came
                }
            } else {
                came
            }
        }),
{
    let came = ext.contexts[j];
    if rename && !overwrite {
        lemma_renamed_reference(main.clusters, ext.clusters, came.context.cluster);
        lemma_renamed_reference(main.users, ext.users, came.context.user);
    } else {
        lemma_no_renames(Merged::start(main.clusters), ext.clusters, rename, overwrite);
        lemma_no_renames(Merged::start(main.users), ext.users, rename, overwrite);
    }
}

/// The first entry that a merge adds or overwrites stands in the result
/// under the name that the merge records for it.
pub proof fn lemma_first_changed_is_held<E: Named>(
    start: Merged<E>,
    incoming: Seq<E>,
    rename: bool,
    overwrite: bool,
)
    requires
        start.first_changed is Some ==> names_of(start.entries).contains(start.first_changed->0),
    ensures
        ({
            let merged = merge_all(start, incoming, rename, overwrite);
            merged.first_changed is Some ==> names_of(merged.entries).contains(
                merged.first_changed->0,
            )
        }),
    decreases incoming.len(),
{
    if incoming.len() > 0 {
        let init = incoming.drop_last();
        let e = incoming.last();
        let before = merge_all(start, init, rename, overwrite);
        let merged = merge_all(start, incoming, rename, overwrite);
        lemma_first_changed_is_held(start, init, rename, overwrite);
        let names = names_of(before.entries);
        let after = names_of(merged.entries);
        if names.contains(e.name()) {
            if overwrite {
                lemma_first_index_exists(names, e.name());
                assert(after =~= names);
            } else if rename {
                e.lemma_renamed(fresh_name(e.name(), names));
            }
        }
        if before.first_changed is Some {
            let at = choose|at: int| 0 <= at < names.len() && names[at] == before.first_changed->0;
            assert(after[at] == names[at]);
        } else if merged.first_changed is Some && !(names.contains(e.name()) && overwrite) {
            assert(after[names.len() as int] == merged.first_changed->0);
        }
    }
}

/// An import that switches is the import that does not, followed by the
/// selection of the first context that was added or overwritten; that
/// context is one of the document's contexts then. Where no context was
/// added or overwritten, the two imports are the same.
pub proof fn lemma_import_then_switch(
    main: KubeConfigView,
    ext: KubeConfigView,
    rename: bool,
    overwrite: bool,
)
    ensures
        ({
            let merged = imported_config(main, ext, rename, overwrite, false);
            let switched = imported_config(main, ext, rename, overwrite, true);
            match import_plan(main, ext, rename, overwrite).contexts.first_changed {
                Some(name) => names_of(merged.contexts).contains(name) && switched == (
                KubeConfigView { current_context: name, ..merged }),
                None => switched == merged,
            }
        }),
{
    let plan = import_plan(main, ext, rename, overwrite);
    lemma_first_changed_is_held(
        Merged::start(main.contexts),
        remap_contexts(ext.contexts, plan.clusters.renames, plan.users.renames),
        rename,
        overwrite,
    );
}

/// A document for which no context is made up is merged as it came; one for
/// which a context is made up is merged with that one context and with its
/// clusters and users as they came.
pub proof fn lemma_fabricated_context(external: KubeConfigView)
    ensures
        !can_fabricate_context(external) ==> with_fabricated_context(external) == external,
        with_fabricated_context(external).clusters == external.clusters,
        with_fabricated_context(external).users == external.users,
        can_fabricate_context(external) ==> with_fabricated_context(external).contexts.len() == 1
            && with_fabricated_context(external).contexts[0].name == external.current_context,
{
}

/// An import of a document for which no context is made up, and whose names
/// are all new and differ from one another within each kind, adds exactly
/// the document's entries at the end of their collections, once each and
/// unchanged, and leaves what the main document held as it was.
pub proof fn lemma_import_new_document(
    main: KubeConfigView,
    external: KubeConfigView,
    rename: bool,
    overwrite: bool,
)
    requires
        !can_fabricate_context(external),
        unique_names(external.clusters),
        unique_names(external.users),
        unique_names(external.contexts),
        forall|i: int|
            0 <= i < external.clusters.len() ==> !names_of(main.clusters).contains(
                #[trigger] external.clusters[i].name(),
            ),
        forall|i: int|
            0 <= i < external.users.len() ==> !names_of(main.users).contains(
                #[trigger] external.users[i].name(),
            ),
        forall|i: int|
            0 <= i < external.contexts.len() ==> !names_of(main.contexts).contains(
                #[trigger] external.contexts[i].name(),
            ),
    ensures
        imported_config(main, with_fabricated_context(external), rename, overwrite, false) == (
        KubeConfigView {
            clusters: main.clusters + external.clusters,
            users: main.users + external.users,
            contexts: main.contexts + external.contexts,
            ..main
        }),
{
    lemma_import_new_names(main, external, rename, overwrite);
}

/// Importing a context with renaming: where the main document holds a
/// context called `X` and none called `X-imported`, and no incoming context
/// is called `X-imported`, the first incoming context called `X` is added as
/// `X-imported`, with its namespace and with its references as the import
/// rewrites them; no other context of the result has this name; the
/// contexts that the main document held stay as they were, and every
/// incoming context is added. The incoming clusters are to have names that
/// differ from one another, and so are the incoming users.
pub proof fn lemma_import_renames_context(
    main: KubeConfigView,
    ext: KubeConfigView,
    switch: bool,
    j: int,
)
    requires
        unique_names(ext.clusters),
        unique_names(ext.users),
        0 <= j < ext.contexts.len(),
        names_of(main.contexts).contains(ext.contexts[j].name),
        forall|k: int| 0 <= k < j ==> #[trigger] ext.contexts[k].name != ext.contexts[j].name,
        !names_of(main.contexts).contains(ext.contexts[j].name + "-imported"@),
        !names_of(ext.contexts).contains(ext.contexts[j].name + "-imported"@),
    ensures
        ({
            let after = imported_config(main, ext, true, false, switch).contexts;
            let came = ext.contexts[j];
            let imported = came.name + "-imported"@;
            &&& after.len() == main.contexts.len() + ext.contexts.len()
            &&& after.take(main.contexts.len() as int) == main.contexts
            &&& after[main.contexts.len() + j] == (ContextView {
                name: imported,
                context: ContextDataView {
                    cluster: renamed_reference(main.clusters, ext.clusters, came.context.cluster),
                    user: renamed_reference(main.users, ext.users, came.context.user),
                    namespace: came.context.namespace,
                },
            })
            &&& forall|k: int|
                0 <= k < after.len() && #[trigger] names_of(after)[k] == imported ==> k
                    == main.contexts.len() + j
        }),
{
    let plan = import_plan(main, ext, true, false);
    let rewritten = remap_contexts(ext.contexts, plan.clusters.renames, plan.users.renames);
    assert(names_of(rewritten) =~= names_of(ext.contexts));
    assert forall|k: int| 0 <= k < j implies #[trigger] rewritten[k].name()
        != rewritten[j].name() by {
        assert(ext.contexts[k].name != ext.contexts[j].name);
    }
    lemma_import_rewrites_references(main, ext, true, false, j);
    lemma_rename_merge_imports(main.contexts, rewritten, j);
}

} // verus!
