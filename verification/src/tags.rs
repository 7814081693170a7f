//! Sets of tags that keep the order in which the tags were added.
//!
//! The set is an `indexmap::IndexSet` of strings. To the verifier it is
//! opaque: all that is known of it is what the functions of this module
//! state, each of which makes one call into `indexmap`.
use crate::fields::lines;
use indexmap::IndexSet;
use vstd::prelude::*;

verus! {

/// `indexmap::IndexSet`: a set that keeps the order of insertion.
#[verifier::external_type_specification]
#[verifier::external_body]
#[verifier::reject_recursive_types(T)]
#[verifier::reject_recursive_types(S)]
pub struct ExIndexSet<T, S>(indexmap::IndexSet<T, S>);

/// The tags of a set, in the order in which they were added.
pub uninterp spec fn items(s: IndexSet<String>) -> Seq<Seq<char>>;

/// `IndexSet::new`: a set without items.
#[verifier::external_body]
pub(crate) fn new() -> (r: IndexSet<String>)
    ensures
        items(r) == Seq::<Seq<char>>::empty(),
{
    IndexSet::new()
}

/// `IndexSet::insert`: an item that the set does not hold goes to the end,
/// and the call returns `true`; an item that the set holds changes nothing,
/// and the call returns `false`.
#[verifier::external_body]
pub(crate) fn insert(s: &mut IndexSet<String>, item: String) -> (added: bool)
    ensures
        added == !items(*old(s)).contains(item@),
        items(*final(s)) == if added {
            items(*old(s)).push(item@)
        } else {
            items(*old(s))
        },
{
    s.insert(item)
}

/// `IndexSet::iter`, collected: the items in their order. A set holds no
/// item twice.
#[verifier::external_body]
pub(crate) fn to_vec(s: &IndexSet<String>) -> (r: Vec<String>)
    ensures
        lines(r@) == items(*s),
        lines(r@).no_duplicates(),
{
    s.iter().cloned().collect()
}

/// The words of a list, each at the place of its first occurrence.
pub open spec fn unique(words: Seq<Seq<char>>) -> Seq<Seq<char>>
    decreases words.len(),
{
    if words.len() == 0 {
        words
    } else {
        let before = unique(words.drop_last());
        if before.contains(words.last()) {
            before
        } else {
            before.push(words.last())
        }
    }
}

/// What `unique` keeps are the words of the list.
pub proof fn lemma_unique_contains(words: Seq<Seq<char>>, w: Seq<char>)
    ensures
        unique(words).contains(w) == words.contains(w),
    decreases words.len(),
{
    if words.len() > 0 {
        let head = words.drop_last();
        lemma_unique_contains(head, w);
        let before = unique(head);
        if words.contains(w) {
            let i = choose|i: int| 0 <= i < words.len() && words[i] == w;
            if i < head.len() {
                assert(head[i] == w);
                assert(head.contains(w));
                let k = choose|k: int| 0 <= k < before.len() && before[k] == w;
                if !before.contains(words.last()) {
                    assert(before.push(words.last())[k] == w);
                }
            } else {
                if !before.contains(words.last()) {
                    assert(before.push(words.last())[before.len() as int] == w);
                }
            }
        }
        if unique(words).contains(w) {
            let k = choose|k: int| 0 <= k < unique(words).len() && unique(words)[k] == w;
            if k < before.len() {
                assert(before[k] == w);
                assert(before.contains(w));
                let i = choose|i: int| 0 <= i < head.len() && head[i] == w;
                assert(words[i] == w);
            } else {
                assert(words[words.len() - 1] == w);
            }
        }
    }
}

/// A list without repetitions is its own `unique`.
pub proof fn lemma_unique_of_distinct(words: Seq<Seq<char>>)
    requires
        words.no_duplicates(),
    ensures
        unique(words) == words,
    decreases words.len(),
{
    if words.len() > 0 {
        let head = words.drop_last();
        lemma_unique_of_distinct(head);
        lemma_unique_contains(head, words.last());
        if head.contains(words.last()) {
            let i = choose|i: int| 0 <= i < head.len() && head[i] == words.last();
            assert(words[i] == words[words.len() - 1]);
        }
        assert(head.push(words.last()) =~= words);
    }
}

/// The set of the words of a list, each added once, in the order of the
/// list.
pub fn from_words(words: Vec<String>) -> (s: IndexSet<String>)
    ensures
        items(s) == unique(lines(words@)),
{
    let mut s = new();
    let mut i: usize = 0;
    while i < words.len()
        invariant
            i <= words.len(),
            items(s) == unique(lines(words@).take(i as int)),
        decreases words.len() - i,
    {
        let ghost head = lines(words@).take(i as int);
        let ghost next = lines(words@).take(i + 1);
        proof {
            assert(next.drop_last() =~= head);
            assert(next.last() == words@[i as int]@);
        }
        let _ = insert(&mut s, words[i].clone());
        i = i + 1;
    }
    assert(lines(words@).take(words.len() as int) =~= lines(words@));
    s
}

} // verus!
