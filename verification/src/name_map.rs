use vstd::prelude::*;

verus! {

/// The map that a list of pairs stands for: each pair sends its first name to
/// its second, and a later pair overrides an earlier one for the same name.
pub open spec fn pairs_map(pairs: Seq<(Seq<char>, Seq<char>)>) -> Map<Seq<char>, Seq<char>>
    decreases pairs.len(),
{
    if pairs.len() == 0 {
        Map::empty()
    } else {
        pairs_map(pairs.drop_last()).insert(pairs.last().0, pairs.last().1)
    }
}

/// A table from old names to new names.
#[derive(Debug)]
pub struct NameMap {
    pairs: Vec<(String, String)>,
}

impl View for NameMap {
    type V = Map<Seq<char>, Seq<char>>;

    closed spec fn view(&self) -> Map<Seq<char>, Seq<char>> {
        pairs_map(self.pairs.deep_view())
    }
}

impl NameMap {
    /// The table without entries.
    pub fn new() -> (r: Self)
        ensures
            r@ == Map::<Seq<char>, Seq<char>>::empty(),
    {
        let r = NameMap { pairs: Vec::new() };
        r
    }

    /// Records that `from` now goes by `to`, in place of what was recorded
    /// for `from` before.
    pub fn insert(&mut self, from: String, to: String)
        ensures
            final(self)@ == old(self)@.insert(from@, to@),
    {
        let ghost before = self.pairs.deep_view();
        self.pairs.push((from, to));
        proof {
            let after = self.pairs.deep_view();
            assert(after.drop_last() =~= before);
        }
    }

    /// Looks up the new name recorded for `name`.
    pub fn get(&self, name: &String) -> (r: Option<&String>)
        ensures
            match r {
                Some(to) => self@.contains_key(name@) && to@ == self@[name@],
                None => !self@.contains_key(name@),
            },
    {
        let ghost all = self.pairs.deep_view();
        let mut i: usize = self.pairs.len();
        assert(all.take(i as int) =~= all);
        while i > 0
            invariant
                i <= self.pairs.len(),
                all == self.pairs.deep_view(),
                pairs_map(all).contains_key(name@) == pairs_map(all.take(i as int)).contains_key(
                    name@,
                ),
                pairs_map(all).contains_key(name@) ==> pairs_map(all)[name@] == pairs_map(
                    all.take(i as int),
                )[name@],
            decreases i,
        {
            i -= 1;
            proof {
                let upto = all.take(i + 1);
                assert(upto.drop_last() =~= all.take(i as int));
            }
            if self.pairs[i].0 == *name {
                return Some(&self.pairs[i].1);
            }
        }
        None
    }
}

} // verus!
