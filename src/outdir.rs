//! Collision-free names for the directories that archives are extracted to.
use vstd::prelude::*;
use crate::paths::{file_stem_of, joined, parent_of, path_file_stem, path_join, path_parent};

verus! {

broadcast use vstd::seq_lib::group_seq_properties;

pub open spec fn digit_char(d: nat) -> char {
    seq!['0', '1', '2', '3', '4', '5', '6', '7', '8', '9'][d as int]
}

/// `n` written in decimal, without leading zeros.
pub open spec fn decimal(n: nat) -> Seq<char>
    decreases n,
{
    if n < 10 {
        seq![digit_char(n)]
    } else {
        decimal(n / 10).push(digit_char(n % 10))
    }
}

/// The number that a string of decimal digits denotes.
pub open spec fn digits_value(s: Seq<char>) -> nat
    decreases s.len(),
{
    if s.len() == 0 {
        0
    } else {
        digits_value(s.drop_last()) * 10 + digit_value(s.last())
    }
}

pub open spec fn digit_value(c: char) -> nat {
    if '0' <= c <= '9' {
        (c as nat - '0' as nat) as nat
    } else {
        0
    }
}

/// The `k`-th name tried for a stem: the stem itself, then `stem (2)`,
/// `stem (3)`, and so on.
pub open spec fn candidate(stem: Seq<char>, k: nat) -> Seq<char> {
    if k <= 1 {
        stem
    } else {
        stem + seq![' ', '('] + decimal(k) + seq![')']
    }
}

/// The names already present, as a set.
pub open spec fn name_set(names: Seq<String>) -> Set<Seq<char>> {
    names.map_values(|s: String| s@).to_set()
}

/// `name` is the first candidate for `stem` that is not taken.
pub open spec fn is_first_free(stem: Seq<char>, taken: Set<Seq<char>>, name: Seq<char>) -> bool {
    exists|k: nat|
        k >= 1 && name == candidate(stem, k) && !taken.contains(name) && forall|j: nat|
            1 <= j < k ==> taken.contains(#[trigger] candidate(stem, j))
}

/// The stem of an archive's file name, empty where it has none.
pub open spec fn stem_or_empty(p: Seq<char>) -> Seq<char> {
    match file_stem_of(p) {
        Some(s) => s,
        None => Seq::empty(),
    }
}

/// The directory an archive sits in, the current one where it has none.
pub open spec fn parent_or_current(p: Seq<char>) -> Seq<char> {
    match parent_of(p) {
        Some(d) => d,
        None => seq!['.'],
    }
}

pub proof fn lemma_decimal_value(n: nat)
    ensures
        digits_value(decimal(n)) == n,
        decimal(n).len() >= 1,
    decreases n,
{
    lemma_digit_value((n % 10) as nat);
    let s = decimal(n);
    if n < 10 {
        assert(s.drop_last() =~= Seq::<char>::empty());
        assert(s.last() == digit_char(n));
        assert(n % 10 == n);
        assert(digits_value(s) == digits_value(s.drop_last()) * 10 + digit_value(s.last()));
    } else {
        lemma_decimal_value(n / 10);
        assert(s.drop_last() == decimal(n / 10));
        assert(s.last() == digit_char(n % 10));
        assert((n / 10) * 10 + n % 10 == n);
        assert(digits_value(s) == digits_value(s.drop_last()) * 10 + digit_value(s.last()));
    }
}

proof fn lemma_digit_value(d: nat)
    requires
        d < 10,
    ensures
        digit_value(digit_char(d)) == d,
{
    if d == 0 {
        assert(digit_char(d) == '0');
    } else if d == 1 {
        assert(digit_char(d) == '1');
    } else if d == 2 {
        assert(digit_char(d) == '2');
    } else if d == 3 {
        assert(digit_char(d) == '3');
    } else if d == 4 {
        assert(digit_char(d) == '4');
    } else if d == 5 {
        assert(digit_char(d) == '5');
    } else if d == 6 {
        assert(digit_char(d) == '6');
    } else if d == 7 {
        assert(digit_char(d) == '7');
    } else if d == 8 {
        assert(digit_char(d) == '8');
    } else {
        assert(digit_char(d) == '9');
    }
}

/// Different counters give different names.
pub proof fn lemma_candidate_injective(stem: Seq<char>, j: nat, k: nat)
    requires
        1 <= j,
        1 <= k,
        j != k,
    ensures
        candidate(stem, j) != candidate(stem, k),
{
    lemma_decimal_value(j);
    lemma_decimal_value(k);
    if j >= 2 && k >= 2 {
        let p = stem + seq![' ', '('];
        let a = candidate(stem, j);
        let b = candidate(stem, k);
        if a == b {
            let dj = decimal(j);
            let dk = decimal(k);
            assert(a == p + dj + seq![')']);
            assert(b == p + dk + seq![')']);
            assert(a.len() == p.len() + dj.len() + 1);
            assert(b.len() == p.len() + dk.len() + 1);
            assert(dj.len() == dk.len());
            assert(a.subrange(p.len() as int, p.len() + dj.len() as int) == dj);
            assert(b.subrange(p.len() as int, p.len() + dk.len() as int) == dk);
        }
    } else if j >= 2 {
        assert(candidate(stem, j).len() > stem.len());
    } else {
        assert(candidate(stem, k).len() > stem.len());
    }
}

/// A finite set that holds the first `k - 1` candidates has at least that
/// many elements.
pub proof fn lemma_taken_bounds_counter(stem: Seq<char>, taken: Set<Seq<char>>, k: nat)
    requires
        taken.finite(),
        k >= 1,
        forall|j: nat| 1 <= j < k ==> taken.contains(#[trigger] candidate(stem, j)),
    ensures
        k - 1 <= taken.len(),
    decreases k,
{
    if k >= 2 {
        let last = candidate(stem, (k - 1) as nat);
        let rest = taken.remove(last);
        assert forall|j: nat| 1 <= j < k - 1 implies rest.contains(#[trigger] candidate(stem, j)) by {
            lemma_candidate_injective(stem, j, (k - 1) as nat);
        }
        lemma_taken_bounds_counter(stem, rest, (k - 1) as nat);
    }
}

fn digit_str(d: usize) -> (r: &'static str)
    requires
        d < 10,
    ensures
        r@ == seq![digit_char(d as nat)],
{
    proof {
        reveal_strlit("0");
        reveal_strlit("1");
        reveal_strlit("2");
        reveal_strlit("3");
        reveal_strlit("4");
        reveal_strlit("5");
        reveal_strlit("6");
        reveal_strlit("7");
        reveal_strlit("8");
        reveal_strlit("9");
    }
    match d {
        0 => "0",
        1 => "1",
        2 => "2",
        3 => "3",
        4 => "4",
        5 => "5",
        6 => "6",
        7 => "7",
        8 => "8",
        _ => "9",
    }
}

/// Writes `n` in decimal.
pub fn decimal_string(n: usize) -> (r: String)
    ensures
        r@ == decimal(n as nat),
    decreases n,
{
    if n < 10 {
        String::from_str(digit_str(n))
    } else {
        let mut s = decimal_string(n / 10);
        s.append(digit_str(n % 10));
        s
    }
}

/// The `k`-th name tried for `stem`.
pub fn candidate_name(stem: &str, k: usize) -> (r: String)
    requires
        k >= 1,
    ensures
        r@ == candidate(stem@, k as nat),
{
    let mut r = String::from_str(stem);
    if k >= 2 {
        proof {
            reveal_strlit(" (");
            reveal_strlit(")");
        }
        r.append(" (");
        let d = decimal_string(k);
        r.append(d.as_str());
        r.append(")");
    }
    r
}

/// Whether `name` is among `names`.
pub fn contains_name(names: &Vec<String>, name: &String) -> (r: bool)
    ensures
        r == name_set(names@).contains(name@),
{
    let mut i: usize = 0;
    while i < names.len()
        invariant
            0 <= i <= names.len(),
            forall|j: int| 0 <= j < i ==> names@[j]@ != name@,
        decreases names.len() - i,
    {
        if names[i] == *name {
            proof {
                assert(names@.map_values(|s: String| s@)[i as int] == name@);
            }
            return true;
        }
        i = i + 1;
    }
    proof {
        if name_set(names@).contains(name@) {
            let v = names@.map_values(|s: String| s@);
            let j = choose|j: int| 0 <= j < v.len() && #[trigger] v[j] == name@;
            assert(names@[j]@ == name@);
        }
    }
    false
}

/// The first name for `stem`, in the order of `candidate`, that is not among
/// `taken`.
pub fn first_free_name(stem: &str, taken: &Vec<String>) -> (r: String)
    requires
        taken.len() < usize::MAX,
    ensures
        is_first_free(stem@, name_set(taken@), r@),
{
    let ghost set = name_set(taken@);
    proof {
        taken@.map_values(|s: String| s@).lemma_cardinality_of_set();
        vstd::seq_lib::seq_to_set_is_finite(taken@.map_values(|s: String| s@));
    }
    let mut k: usize = 1;
    let mut name = candidate_name(stem, 1);
    while contains_name(taken, &name)
        invariant
            1 <= k <= taken.len() + 1,
            taken.len() < usize::MAX,
            set == name_set(taken@),
            set.finite(),
            set.len() <= taken.len(),
            name@ == candidate(stem@, k as nat),
            forall|j: nat| 1 <= j < k ==> set.contains(#[trigger] candidate(stem@, j)),
        decreases taken.len() + 1 - k,
    {
        proof {
            assert(set.contains(candidate(stem@, k as nat)));
            lemma_taken_bounds_counter(stem@, set, (k + 1) as nat);
            assert(k <= set.len());
        }
        k = k + 1;
        name = candidate_name(stem, k);
    }
    proof {
        assert(is_first_free(stem@, set, name@) ) by {
            let kk = k as nat;
            assert(kk >= 1 && name@ == candidate(stem@, kk));
        }
    }
    name
}

/// The directory that holds `path`, the current one where it names none.
pub fn directory_of(path: &str) -> (r: String)
    ensures
        r@ == parent_or_current(path@),
{
    match path_parent(path) {
        Some(d) => d,
        None => {
            proof {
                reveal_strlit(".");
            }
            String::from_str(".")
        },
    }
}

/// The directory to extract `archive` into: named after the archive's stem,
/// beside the archive, and not among `taken`, the names already present in
/// that directory.
pub fn generate_output_dir(archive: &str, taken: &Vec<String>) -> (r: String)
    requires
        taken.len() < usize::MAX,
    ensures
        exists|name: Seq<char>|
            is_first_free(stem_or_empty(archive@), name_set(taken@), name) && r@ == joined(
                parent_or_current(archive@),
                name,
            ),
{
    let stem = match path_file_stem(archive) {
        Some(s) => s,
        None => String::new(),
    };
    let parent = directory_of(archive);
    let name = first_free_name(stem.as_str(), taken);
    let r = path_join(parent.as_str(), name.as_str());
    proof {
        assert(stem@ == stem_or_empty(archive@));
        assert(parent@ == parent_or_current(archive@));
        assert(is_first_free(stem_or_empty(archive@), name_set(taken@), name@));
    }
    r
}

} // verus!
