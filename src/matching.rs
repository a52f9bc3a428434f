//! Name predicates: substring and exact matching of a target against the
//! process names of a snapshot.
use vstd::prelude::*;

verus! {

/// `needle` occurs in `hay` as a contiguous run of characters.
pub open spec fn contains_seq(hay: Seq<char>, needle: Seq<char>) -> bool {
    exists|i: int, j: int|
        0 <= i && j == i + needle.len() && j <= hay.len() && #[trigger] hay.subrange(i, j)
            == needle
}

/// Some name of `names` contains `target` as a substring.
pub open spec fn any_contains(names: Set<Seq<char>>, target: Seq<char>) -> bool {
    exists|n: Seq<char>| names.contains(n) && #[trigger] contains_seq(n, target)
}

/// Some name of `names` is exactly `target`.
pub open spec fn any_equals(names: Set<Seq<char>>, target: Seq<char>) -> bool {
    names.contains(target)
}

/// The set of names held by a list of strings.
pub open spec fn name_set(names: Seq<String>) -> Set<Seq<char>> {
    Set::new(|n: Seq<char>| exists|i: int| 0 <= i < names.len() && #[trigger] names[i]@ == n)
}

/// Relies on `str::contains` with a `&str` pattern: true iff `needle` matches
/// a sub-slice of `hay`.
#[verifier::external_body]
fn str_contains(hay: &str, needle: &str) -> (r: bool)
    ensures
        r == contains_seq(hay@, needle@),
{
    hay.contains(needle)
}

/// Whether any of `names` contains `target` as a substring (case-sensitive).
pub fn find_by_substring(names: &Vec<String>, target: &str) -> (r: bool)
    ensures
        r == any_contains(name_set(names@), target@),
{
    let mut i: usize = 0;
    while i < names.len()
        invariant
            0 <= i <= names.len(),
            forall|j: int| 0 <= j < i ==> !contains_seq(#[trigger] names@[j]@, target@),
        decreases names.len() - i,
    {
        if str_contains(names[i].as_str(), target) {
            assert(name_set(names@).contains(names@[i as int]@));
            return true;
        }
        i = i + 1;
    }
    proof {
        assert forall|n: Seq<char>| name_set(names@).contains(n) implies !contains_seq(
            n,
            target@,
        ) by {
            let k = choose|k: int| 0 <= k < names.len() && #[trigger] names@[k]@ == n;
            assert(!contains_seq(names@[k]@, target@));
        }
    }
    false
}

/// Whether any of `names` is exactly `target`.
pub fn find_by_exact(names: &Vec<String>, target: &str) -> (r: bool)
    ensures
        r == any_equals(name_set(names@), target@),
{
    let wanted = target.to_owned();
    let mut i: usize = 0;
    while i < names.len()
        invariant
            0 <= i <= names.len(),
            wanted@ == target@,
            forall|j: int| 0 <= j < i ==> #[trigger] names@[j]@ != target@,
        decreases names.len() - i,
    {
        if names[i] == wanted {
            assert(name_set(names@).contains(names@[i as int]@));
            return true;
        }
        i = i + 1;
    }
    false
}

} // verus!
