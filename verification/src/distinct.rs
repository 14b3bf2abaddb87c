//! Counting the distinct characters of a word.

use vstd::prelude::*;
use itertools::Itertools;

verus! {

/// Whether the characters of `s` stand in ascending order of code point,
/// equal neighbours allowed.
pub open spec fn ascending(s: Seq<char>) -> bool {
    forall|i: int, j: int| 0 <= i <= j < s.len() ==> s[i] <= s[j]
}

/// Whether each character of `s` is greater than the one before it.
pub open spec fn strictly_ascending(s: Seq<char>) -> bool {
    forall|i: int, j: int| 0 <= i < j < s.len() ==> s[i] < s[j]
}

/// `s` with every run of equal neighbours shortened to one character.
pub open spec fn squeezed(s: Seq<char>) -> Seq<char>
    decreases s.len(),
{
    if s.len() <= 1 {
        s
    } else if s[s.len() - 2] == s.last() {
        squeezed(s.drop_last())
    } else {
        squeezed(s.drop_last()).push(s.last())
    }
}

/// `Itertools::sorted` collects the characters of the word, sorts them with
/// the standard slice sort and hands them out again: the same characters,
/// each as often as before, in ascending order of code point.
#[verifier::external_body]
fn sorted_chars(word: &str) -> (r: Vec<char>)
    ensures
        ascending(r@),
        r@.to_multiset() == word@.to_multiset(),
{
    word.chars().sorted().collect()
}

/// `Itertools::dedup` drops every element that equals the one just before
/// it, so each run of equal neighbours is left with one element.
#[verifier::external_body]
fn dedup_chars(chars: &Vec<char>) -> (r: Vec<char>)
    ensures
        r@ == squeezed(chars@),
{
    chars.iter().copied().dedup().collect()
}

/// Squeezing an ascending sequence leaves a strictly ascending one with the
/// same set of characters and the same last character.
proof fn lemma_squeezed_ascending(s: Seq<char>)
    requires
        ascending(s),
    ensures
        strictly_ascending(squeezed(s)),
        squeezed(s).to_set() == s.to_set(),
        s.len() > 0 ==> squeezed(s).len() > 0 && squeezed(s).last() == s.last(),
    decreases s.len(),
{
    if s.len() > 1 {
        let front = s.drop_last();
        let kept = squeezed(front);
        let out = squeezed(s);
        assert(ascending(front)) by {
            assert forall|i: int, j: int| 0 <= i <= j < front.len() implies front[i] <= front[j] by {
                assert(front[i] == s[i] && front[j] == s[j]);
            }
        }
        lemma_squeezed_ascending(front);
        assert(kept.last() == front.last());
        assert(front.last() == s[s.len() - 2]);
        assert(s[s.len() - 2] <= s.last());
        assert forall|x: char| out.to_set().contains(x) == s.to_set().contains(x) by {
            assert(kept.to_set().contains(x) == front.to_set().contains(x));
            if s.contains(x) {
                let i = choose|i: int| 0 <= i < s.len() && s[i] == x;
                if i < s.len() - 1 {
                    assert(front[i] == x);
                    assert(front.contains(x));
                } else {
                    assert(x == s.last());
                    assert(front[front.len() - 1] == s[s.len() - 2]);
                }
            }
            if front.contains(x) {
                let i = choose|i: int| 0 <= i < front.len() && front[i] == x;
                assert(s[i] == x);
            }
            if kept.contains(x) {
                let i = choose|i: int| 0 <= i < kept.len() && kept[i] == x;
                if s[s.len() - 2] != s.last() {
                    assert(out[i] == x);
                }
            }
            if out.contains(x) && s[s.len() - 2] != s.last() {
                let i = choose|i: int| 0 <= i < out.len() && out[i] == x;
                if i < kept.len() {
                    assert(kept[i] == x);
                } else {
                    assert(x == s.last());
                    assert(s[s.len() - 1] == x);
                }
            }
            if s[s.len() - 2] != s.last() {
                assert(out[out.len() - 1] == s.last());
            }
        }
        assert(out.to_set() =~= s.to_set());
        if s[s.len() - 2] != s.last() {
            assert forall|i: int, j: int| 0 <= i < j < out.len() implies out[i] < out[j] by {
                if j < kept.len() {
                    assert(out[i] == kept[i] && out[j] == kept[j]);
                } else {
                    assert(out[j] == s.last());
                    assert(out[i] == kept[i]);
                    assert(i <= kept.len() - 1);
                    if i < kept.len() - 1 {
                        assert(kept[i] < kept[kept.len() - 1]);
                    }
                }
            }
        }
    }
}

/// A strictly ascending sequence holds no character twice.
proof fn lemma_strictly_ascending_no_duplicates(s: Seq<char>)
    requires
        strictly_ascending(s),
    ensures
        s.no_duplicates(),
{
    assert forall|i: int, j: int| 0 <= i < s.len() && 0 <= j < s.len() && i != j implies s[i]
        != s[j] by {
        if i < j {
            assert(s[i] < s[j]);
        } else {
            assert(s[j] < s[i]);
        }
    }
}

/// Two sequences that hold the same characters equally often hold the same
/// set of characters.
proof fn lemma_same_multiset_same_set(a: Seq<char>, b: Seq<char>)
    requires
        a.to_multiset() == b.to_multiset(),
    ensures
        a.to_set() == b.to_set(),
{
    a.to_multiset_ensures();
    b.to_multiset_ensures();
    assert forall|x: char| a.to_set().contains(x) == b.to_set().contains(x) by {
        assert(a.contains(x) <==> a.to_multiset().count(x) > 0);
        assert(b.contains(x) <==> b.to_multiset().count(x) > 0);
    }
    assert(a.to_set() =~= b.to_set());
}

/// The number of distinct characters of `word`, told apart by code point, so
/// that an uppercase letter and its lowercase form count as two.
///
/// This is the fewest guesses with which every character of the word could
/// have been named.
pub fn optimal_guesses(word: &str) -> (n: usize)
    ensures
        n == word@.to_set().len(),
{
    let sorted = sorted_chars(word);
    let distinct = dedup_chars(&sorted);
    proof {
        lemma_squeezed_ascending(sorted@);
        lemma_strictly_ascending_no_duplicates(distinct@);
        distinct@.unique_seq_to_set();
        lemma_same_multiset_same_set(sorted@, word@);
    }
    distinct.len()
}

} // verus!
