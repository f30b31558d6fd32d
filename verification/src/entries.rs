use crate::config::kubernetes::{
    ClusterEntry, ClusterView, ContextEntry, ContextView, UserEntry, UserView,
};
use crate::naming::contains_name;
use vstd::prelude::*;

verus! {

/// What the three kinds of entries have in common, as mathematical values: a
/// name, under which an entry is found, beside what the entry stands for.
pub trait Named: Sized {
    /// The entry's name.
    spec fn name(self) -> Seq<char>;

    /// The same entry under another name.
    spec fn renamed(self, name: Seq<char>) -> Self;

    /// Renaming gives the entry the new name.
    proof fn lemma_renamed(self, name: Seq<char>)
        ensures
            self.renamed(name).name() == name,
    ;
}

impl Named for ClusterView {
    open spec fn name(self) -> Seq<char> {
        self.name
    }

    open spec fn renamed(self, name: Seq<char>) -> Self {
        ClusterView { name, ..self }
    }

    proof fn lemma_renamed(self, name: Seq<char>) {
    }
}

impl Named for UserView {
    open spec fn name(self) -> Seq<char> {
        self.name
    }

    open spec fn renamed(self, name: Seq<char>) -> Self {
        UserView { name, ..self }
    }

    proof fn lemma_renamed(self, name: Seq<char>) {
    }
}

impl Named for ContextView {
    open spec fn name(self) -> Seq<char> {
        self.name
    }

    open spec fn renamed(self, name: Seq<char>) -> Self {
        ContextView { name, ..self }
    }

    proof fn lemma_renamed(self, name: Seq<char>) {
    }
}

/// An entry of a configuration document: a value that carries a name.
pub trait NamedEntry: Sized + DeepView where <Self as DeepView>::V: Named {
    /// The entry's name.
    fn entry_name(&self) -> (r: &String)
        ensures
            r@ == self.deep_view().name(),
    ;

    /// Gives the entry another name and leaves the rest of it as it is.
    fn set_entry_name(&mut self, name: String)
        ensures
            final(self).deep_view() == old(self).deep_view().renamed(name@),
    ;
}

impl NamedEntry for ClusterEntry {
    fn entry_name(&self) -> (r: &String) {
        &self.name
    }

    fn set_entry_name(&mut self, name: String) {
        self.name = name;
    }
}

impl NamedEntry for UserEntry {
    fn entry_name(&self) -> (r: &String) {
        &self.name
    }

    fn set_entry_name(&mut self, name: String) {
        self.name = name;
    }
}

impl NamedEntry for ContextEntry {
    fn entry_name(&self) -> (r: &String) {
        &self.name
    }

    fn set_entry_name(&mut self, name: String) {
        self.name = name;
    }
}

/// The names of the entries of a collection, in the collection's order.
pub open spec fn names_of<E: Named>(entries: Seq<E>) -> Seq<Seq<char>> {
    Seq::new(entries.len(), |i: int| entries[i].name())
}

/// No name occurs twice in the collection.
pub open spec fn unique_names<E: Named>(entries: Seq<E>) -> bool {
    names_of(entries).no_duplicates()
}

/// `i` is the first place at which `name` stands in `names`.
pub open spec fn is_first_index(names: Seq<Seq<char>>, name: Seq<char>, i: int) -> bool {
    &&& 0 <= i < names.len()
    &&& names[i] == name
    &&& forall|j: int| 0 <= j < i ==> names[j] != name
}

/// The first place at which `name` stands in `names`, where it stands there
/// at all.
pub open spec fn first_index(names: Seq<Seq<char>>, name: Seq<char>) -> int {
    choose|i: int| is_first_index(names, name, i)
}

/// A name that stands in `names` has a first place there.
pub proof fn lemma_first_index_exists(names: Seq<Seq<char>>, name: Seq<char>)
    requires
        names.contains(name),
    ensures
        is_first_index(names, name, first_index(names, name)),
    decreases names.len(),
{
    if names[0] == name {
        assert(is_first_index(names, name, 0));
    } else {
        let rest = names.drop_first();
        let w = choose|i: int| 0 <= i < names.len() && names[i] == name;
        assert(rest[w - 1] == name);
        lemma_first_index_exists(rest, name);
        let r = first_index(rest, name);
        assert(is_first_index(names, name, r + 1)) by {
            assert forall|j: int| 0 <= j < r + 1 implies names[j] != name by {
                if j > 0 {
                    assert(rest[j - 1] != name);
                }
            }
        }
    }
}

/// Adding an entry at the end adds its name at the end.
pub proof fn lemma_names_push<E: Named>(entries: Seq<E>, e: E)
    ensures
        names_of(entries.push(e)) == names_of(entries).push(e.name()),
{
}

/// Putting an entry in the place of another puts its name in that place.
pub proof fn lemma_names_update<E: Named>(entries: Seq<E>, i: int, e: E)
    requires
        0 <= i < entries.len(),
    ensures
        names_of(entries.update(i, e)) == names_of(entries).update(i, e.name()),
{
}

/// Finds the first entry called `name`.
pub fn position<T: NamedEntry>(entries: &Vec<T>, name: &String) -> (r: Option<usize>) where
    <T as DeepView>::V: Named,

    ensures
        match r {
            Some(i) => is_first_index(names_of(entries.deep_view()), name@, i as int),
            None => !names_of(entries.deep_view()).contains(name@),
        },
{
    let mut i: usize = 0;
    while i < entries.len()
        invariant
            i <= entries.len(),
            forall|j: int| 0 <= j < i ==> names_of(entries.deep_view())[j] != name@,
        decreases entries.len() - i,
    {
        if *entries[i].entry_name() == *name {
            return Some(i);
        }
        i += 1;
    }
    None
}

/// Lists the names of the entries, in their order.
pub fn entry_names<T: NamedEntry>(entries: &Vec<T>) -> (r: Vec<String>) where
    <T as DeepView>::V: Named,

    ensures
        r.deep_view() == names_of(entries.deep_view()),
{
    let mut names: Vec<String> = Vec::new();
    let mut i: usize = 0;
    while i < entries.len()
        invariant
            i <= entries.len(),
            names.len() == i,
            forall|j: int| 0 <= j < i ==> names@[j]@ == entries@[j].deep_view().name(),
        decreases entries.len() - i,
    {
        names.push(entries[i].entry_name().clone());
        i += 1;
    }
    names
}

/// The test on an entry whether its name is among `names` (`listed` set), or
/// whether it is not (`listed` not set).
pub open spec fn is_listed<E: Named>(names: Seq<Seq<char>>, listed: bool) -> spec_fn(E) -> bool {
    |e: E| names.contains(e.name()) == listed
}

/// The entries whose names are among `names`, in their order.
pub open spec fn listed_in<E: Named>(entries: Seq<E>, names: Seq<Seq<char>>) -> Seq<E> {
    entries.filter(is_listed(names, true))
}

/// The entries whose names are not among `names`, in their order.
pub open spec fn not_listed_in<E: Named>(entries: Seq<E>, names: Seq<Seq<char>>) -> Seq<E> {
    entries.filter(is_listed(names, false))
}

/// Parts a collection in two by name: the entries whose names are among
/// `names` go to one side, the others to the other side, each side in the
/// collection's order.
pub fn partition_by_names<T: NamedEntry>(entries: Vec<T>, names: &Vec<String>) -> (r: (
    Vec<T>,
    Vec<T>,
)) where <T as DeepView>::V: Named
    ensures
        r.0.deep_view() == listed_in(entries.deep_view(), names.deep_view()),
        r.1.deep_view() == not_listed_in(entries.deep_view(), names.deep_view()),
{
    let ghost all = entries.deep_view();
    let ghost wanted = names.deep_view();
    let mut listed: Vec<T> = Vec::new();
    let mut others: Vec<T> = Vec::new();
    for entry in it: entries.into_iter()
        invariant
            all == entries.deep_view(),
            wanted == names.deep_view(),
            listed.deep_view() == listed_in(all.take(it.index() as int), wanted),
            others.deep_view() == not_listed_in(all.take(it.index() as int), wanted),
    {
        let ghost i = it.index() as int;
        let ghost e = entry.deep_view();
        proof {
            assert(all.take(i + 1) =~= all.take(i).push(e));
            all.take(i).lemma_filter_push(e, is_listed(wanted, true));
            all.take(i).lemma_filter_push(e, is_listed(wanted, false));
        }
        if contains_name(names, entry.entry_name()) {
            listed.push(entry);
        } else {
            others.push(entry);
        }
    }
    proof {
        assert(all.take(all.len() as int) =~= all);
    }
    (listed, others)
}

/// Lists the names of the entries whose names are not among `names`, in the
/// collection's order.
pub fn unlisted_names<T: NamedEntry>(entries: &Vec<T>, names: &Vec<String>) -> (r: Vec<
    String,
>) where <T as DeepView>::V: Named
    ensures
        r.deep_view() == names_of(not_listed_in(entries.deep_view(), names.deep_view())),
{
    let ghost all = entries.deep_view();
    let ghost wanted = names.deep_view();
    let mut found: Vec<String> = Vec::new();
    let mut i: usize = 0;
    while i < entries.len()
        invariant
            i <= entries.len(),
            all == entries.deep_view(),
            wanted == names.deep_view(),
            found.deep_view() == names_of(not_listed_in(all.take(i as int), wanted)),
        decreases entries.len() - i,
    {
        proof {
            assert(all.take(i + 1) =~= all.take(i as int).push(all[i as int]));
            all.take(i as int).lemma_filter_push(all[i as int], is_listed(wanted, false));
        }
        if !contains_name(names, entries[i].entry_name()) {
            found.push(entries[i].entry_name().clone());
            proof {
                lemma_names_push(not_listed_in(all.take(i as int), wanted), all[i as int]);
            }
        }
        i += 1;
    }
    proof {
        assert(all.take(all.len() as int) =~= all);
    }
    found
}

} // verus!
