use vstd::prelude::*;
use vstd::set_lib::lemma_len_subset;
use vstd::string::StringExecFns;

verus! {

/// The character that stands for the digit `d`.
pub open spec fn digit_char(d: nat) -> char
    recommends
        d < 10,
{
    (d + 48) as char
}

/// The digit that the character `c` stands for.
pub open spec fn digit_value(c: char) -> int {
    c as int - 48
}

/// The decimal numeral of `n`, without leading zeros.
pub open spec fn decimal(n: nat) -> Seq<char>
    decreases n,
{
    if n < 10 {
        seq![digit_char(n)]
    } else {
        decimal(n / 10).push(digit_char(n % 10))
    }
}

/// The number that a decimal numeral denotes.
pub open spec fn decimal_value(s: Seq<char>) -> int
    decreases s.len(),
{
    if s.len() == 0 {
        0
    } else {
        decimal_value(s.drop_last()) * 10 + digit_value(s.last())
    }
}

/// A numeral denotes the number it was written for.
pub proof fn lemma_decimal_value(n: nat)
    ensures
        decimal_value(decimal(n)) == n,
        decimal(n).len() >= 1,
    decreases n,
{
    if n < 10 {
        let s = decimal(n);
        assert(decimal_value(s.drop_last()) == 0);
    } else {
        lemma_decimal_value(n / 10);
        let s = decimal(n);
        assert(s.drop_last() =~= decimal(n / 10));
    }
}

/// The `k`-th name tried for an entry called `base` whose name is taken:
/// first `base-imported`, then `base-imported-2`, `base-imported-3`, ...
pub open spec fn candidate_name(base: Seq<char>, k: nat) -> Seq<char> {
    if k <= 1 {
        base + "-imported"@
    } else {
        base + "-imported-"@ + decimal(k)
    }
}

/// `k` is the first try whose name is not among `names`.
pub open spec fn is_first_free(base: Seq<char>, names: Seq<Seq<char>>, k: nat) -> bool {
    &&& k >= 1
    &&& !names.contains(candidate_name(base, k))
    &&& forall|j: nat| 1 <= j < k ==> names.contains(#[trigger] candidate_name(base, j))
}

/// The name given to an entry called `base` when `base` is taken: the first
/// of `base-imported`, `base-imported-2`, `base-imported-3`, ... that is not
/// among `names`.
pub open spec fn fresh_name(base: Seq<char>, names: Seq<Seq<char>>) -> Seq<char> {
    candidate_name(base, choose|k: nat| is_first_free(base, names, k))
}

/// Different tries give different names.
pub proof fn lemma_candidate_injective(base: Seq<char>, j: nat, k: nat)
    requires
        j >= 1,
        k >= 1,
        candidate_name(base, j) == candidate_name(base, k),
    ensures
        j == k,
{
    reveal_strlit("-imported");
    reveal_strlit("-imported-");
    let cj = candidate_name(base, j);
    let ck = candidate_name(base, k);
    lemma_decimal_value(j);
    lemma_decimal_value(k);
    if j >= 2 && k >= 2 {
        let n = base.len() + 10;
        assert(cj.subrange(n as int, cj.len() as int) =~= decimal(j));
        assert(ck.subrange(n as int, ck.len() as int) =~= decimal(k));
    } else if j >= 2 {
        assert(cj.len() == base.len() + 10 + decimal(j).len());
    } else if k >= 2 {
        assert(ck.len() == base.len() + 10 + decimal(k).len());
    }
}

/// The names of the tries `1..=m`.
pub open spec fn tried_names(base: Seq<char>, m: nat) -> Set<Seq<char>>
    decreases m,
{
    if m == 0 {
        Set::empty()
    } else {
        tried_names(base, (m - 1) as nat).insert(candidate_name(base, m))
    }
}

/// The names of the tries `1..=m` are `m` names, those of the tries and no
/// others.
proof fn lemma_tried_names(base: Seq<char>, m: nat)
    ensures
        tried_names(base, m).finite(),
        tried_names(base, m).len() == m,
        forall|s: Seq<char>| #[trigger]
            tried_names(base, m).contains(s) ==> exists|j: nat|
                1 <= j <= m && s == candidate_name(base, j),
        forall|j: nat|
            1 <= j <= m ==> tried_names(base, m).contains(#[trigger] candidate_name(base, j)),
    decreases m,
{
    if m > 0 {
        let prev = tried_names(base, (m - 1) as nat);
        lemma_tried_names(base, (m - 1) as nat);
        if prev.contains(candidate_name(base, m)) {
            let j = choose|j: nat|
                1 <= j <= m - 1 && candidate_name(base, m) == candidate_name(base, j);
            lemma_candidate_injective(base, j, m);
        }
    }
}

/// Only so many tries can be taken as there are names: if the names of the
/// tries `1..=m` are all among `names`, then `m` is at most their number.
pub proof fn lemma_tries_bounded(base: Seq<char>, names: Seq<Seq<char>>, m: nat)
    requires
        forall|j: nat| 1 <= j <= m ==> names.contains(#[trigger] candidate_name(base, j)),
    ensures
        m <= names.len(),
{
    lemma_tried_names(base, m);
    let tried = tried_names(base, m);
    let taken = names.to_set();
    names.lemma_cardinality_of_set();
    lemma_len_subset(tried, taken);
}

/// There is one first free try at most: the fresh name is the name of any
/// try that is the first free one.
pub proof fn lemma_first_free_unique(base: Seq<char>, names: Seq<Seq<char>>, k: nat)
    requires
        is_first_free(base, names, k),
    ensures
        fresh_name(base, names) == candidate_name(base, k),
        !names.contains(fresh_name(base, names)),
{
}

/// From any try on before which all tries are taken, a first free try is
/// found.
proof fn lemma_free_try_from(base: Seq<char>, names: Seq<Seq<char>>, k: nat) -> (free: nat)
    requires
        k >= 1,
        forall|j: nat| 1 <= j < k ==> names.contains(#[trigger] candidate_name(base, j)),
    ensures
        is_first_free(base, names, free),
    decreases names.len() + 1 - k,
{
    if names.contains(candidate_name(base, k)) {
        lemma_tries_bounded(base, names, k);
        lemma_free_try_from(base, names, k + 1)
    } else {
        k
    }
}

/// A fresh name is one of the tries, the first that is free: it is not among
/// the names it was chosen against.
pub proof fn lemma_fresh_name_is_free(base: Seq<char>, names: Seq<Seq<char>>)
    ensures
        !names.contains(fresh_name(base, names)),
        exists|k: nat|
            is_first_free(base, names, k) && fresh_name(base, names) == candidate_name(base, k),
{
    lemma_free_try_from(base, names, 1);
}

/// The fresh name for `base` is `base-imported` where that is free.
pub proof fn lemma_fresh_name_first(base: Seq<char>, names: Seq<Seq<char>>)
    requires
        !names.contains(base + "-imported"@),
    ensures
        fresh_name(base, names) == base + "-imported"@,
{
    lemma_first_free_unique(base, names, 1);
}

/// The fresh name for `base` is `base-imported-2` where `base-imported` is
/// taken and that is free.
pub proof fn lemma_fresh_name_second(base: Seq<char>, names: Seq<Seq<char>>)
    requires
        names.contains(base + "-imported"@),
        !names.contains(base + "-imported-2"@),
    ensures
        fresh_name(base, names) == base + "-imported-2"@,
{
    reveal_strlit("-imported-");
    reveal_strlit("-imported-2");
    assert(candidate_name(base, 2) =~= base + "-imported-2"@);
    assert(is_first_free(base, names, 2));
}

/// Only the first try for `base` is called `base-imported`: a try for any
/// name that has this name is the first try for `base`.
pub proof fn lemma_candidate_is_first(base: Seq<char>, other: Seq<char>, m: nat)
    requires
        m >= 1,
        candidate_name(other, m) == base + "-imported"@,
    ensures
        other == base,
        m == 1,
{
    reveal_strlit("-imported");
    let name = candidate_name(other, m);
    if m >= 2 {
        let digits = decimal(m);
        assert(name.last() == digits.last());
    } else {
        assert(name.len() == other.len() + 9);
        assert(other =~= name.take(other.len() as int));
    }
}

/// The numeral of one digit.
fn digit_str(d: u128) -> (r: &'static str)
    requires
        d < 10,
    ensures
        r@ == seq![digit_char(d as nat)],
{
    proof {
        reveal_strlit("0");
        reveal_strlit("1");
        reveal_strlit("2");
        reveal_strlit("3");
        reveal_strlit("4");
        reveal_strlit("5");
        reveal_strlit("6");
        reveal_strlit("7");
        reveal_strlit("8");
        reveal_strlit("9");
    }
    let r = match d {
        0 => "0",
        1 => "1",
        2 => "2",
        3 => "3",
        4 => "4",
        5 => "5",
        6 => "6",
        7 => "7",
        8 => "8",
        _ => "9",
    };
    r
}

/// Writes `n` as a decimal numeral.
pub fn decimal_string(n: u128) -> (r: String)
    ensures
        r@ == decimal(n as nat),
    decreases n,
{
    if n < 10 {
        digit_str(n).to_string()
    } else {
        let mut s = decimal_string(n / 10);
        s.append(digit_str(n % 10));
        s
    }
}

/// Builds the name of the `k`-th try for `base`.
pub fn candidate_string(base: &str, k: u128) -> (r: String)
    ensures
        r@ == candidate_name(base@, k as nat),
{
    let mut s = base.to_string();
    if k <= 1 {
        s.append("-imported");
    } else {
        s.append("-imported-");
        let digits = decimal_string(k);
        s.append(digits.as_str());
    }
    s
}

/// Says whether `name` is among `names`.
pub fn contains_name(names: &Vec<String>, name: &String) -> (b: bool)
    ensures
        b == names.deep_view().contains(name@),
{
    let mut i: usize = 0;
    while i < names.len()
        invariant
            i <= names.len(),
            forall|j: int| 0 <= j < i ==> names.deep_view()[j] != name@,
        decreases names.len() - i,
    {
        if names[i] == *name {
            assert(names.deep_view()[i as int] == name@);
            return true;
        }
        i += 1;
    }
    false
}

} // verus!
