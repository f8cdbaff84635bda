//! Listing the immediate child directories of a directory: the caller
//! hands over the raw entries it read, and this module keeps only the
//! directories and orders their names deterministically.

use vstd::prelude::*;
use vstd::seq_lib::lemma_multiset_commutative;
use crate::text::lemma_lex_le_total;
use crate::text::lemma_lex_le_trans;
use crate::text::lex_le;
use crate::text::str_le;

verus! {

/// One entry of a raw directory listing: a simple name (no separators)
/// and whether the entry is itself a directory.
pub struct DirEntry {
    pub name: String,
    pub is_dir: bool,
}

/// The names of the entries that are directories, in listing order.
pub open spec fn dir_names(entries: Seq<DirEntry>) -> Seq<Seq<char>> {
    entries.filter(|e: DirEntry| e.is_dir).map_values(|e: DirEntry| e.name@)
}

/// Every earlier text is no later than every later one.
pub open spec fn sorted_texts(s: Seq<Seq<char>>) -> bool {
    forall|i: int, j: int| 0 <= i < j < s.len() ==> lex_le(s[i], s[j])
}

/// Inserting anywhere adds one occurrence and keeps the rest.
proof fn lemma_insert_to_multiset(s: Seq<Seq<char>>, k: int, x: Seq<char>)
    requires
        0 <= k <= s.len(),
    ensures
        s.insert(k, x).to_multiset() =~= s.to_multiset().insert(x),
{
    let left = s.subrange(0, k);
    let right = s.subrange(k, s.len() as int);
    assert(s =~= left + right);
    lemma_multiset_commutative(left, right);
    lemma_multiset_commutative(left.push(x), right);
    left.to_multiset_ensures();
}

/// The index at which `x` belongs in the sorted vector `v`: everything
/// before it is no later than `x`, everything from it on is no earlier.
fn insertion_index(v: &Vec<String>, x: &str) -> (k: usize)
    requires
        sorted_texts(v.deep_view()),
    ensures
        k <= v@.len(),
        forall|m: int| 0 <= m < k ==> lex_le(v.deep_view()[m], x@),
        forall|m: int| k <= m < v@.len() ==> lex_le(x@, v.deep_view()[m]),
{
    let mut k: usize = 0;
    while k < v.len()
        invariant
            sorted_texts(v.deep_view()),
            0 <= k <= v@.len(),
            forall|m: int| 0 <= m < k ==> lex_le(v.deep_view()[m], x@),
        decreases v@.len() - k,
    {
        if str_le(x, v[k].as_str()) {
            proof {
                assert forall|m: int| k <= m < v@.len() implies lex_le(
                    x@,
                    v.deep_view()[m],
                ) by {
                    if m > k {
                        lemma_lex_le_trans(x@, v.deep_view()[k as int], v.deep_view()[m]);
                    }
                }
            }
            return k;
        }
        proof {
            lemma_lex_le_total(x@, v.deep_view()[k as int]);
        }
        k += 1;
    }
    k
}

/// Inserts `x` into the sorted vector `v`, keeping it sorted and adding
/// exactly one occurrence of `x`.
fn insert_sorted(v: &mut Vec<String>, x: String)
    requires
        sorted_texts(old(v).deep_view()),
    ensures
        sorted_texts(final(v).deep_view()),
        final(v).deep_view().to_multiset() == old(v).deep_view().to_multiset().insert(x@),
{
    let k = insertion_index(v, x.as_str());
    let ghost before = v.deep_view();
    v.insert(k, x);
    proof {
        assert(v.deep_view() =~= before.insert(k as int, x@));
        lemma_insert_to_multiset(before, k as int, x@);
        assert forall|i: int, j: int|
            0 <= i < j < v.deep_view().len() implies lex_le(
            v.deep_view()[i],
            v.deep_view()[j],
        ) by {
            let dv = v.deep_view();
            if j < k {
                assert(dv[i] == before[i] && dv[j] == before[j]);
            } else if i > k {
                assert(dv[i] == before[i - 1] && dv[j] == before[j - 1]);
            } else if i < k && j > k {
                assert(dv[i] == before[i] && dv[j] == before[j - 1]);
            } else if j == k {
                assert(dv[i] == before[i] && dv[j] == x@);
            } else if i == k {
                assert(dv[i] == x@ && dv[j] == before[j - 1]);
            }
        }
    }
}

/// Keeps only the child directories of a raw listing and returns their
/// names in lexicographic order: the listing is sorted, holds no file,
/// and holds every directory of the input exactly as often as it occurs.
pub fn list_child_dirs(entries: Vec<DirEntry>) -> (r: Vec<String>)
    ensures
        sorted_texts(r.deep_view()),
        r.deep_view().to_multiset() == dir_names(entries@).to_multiset(),
{
    let mut out: Vec<String> = Vec::new();
    let mut i: usize = 0;
    proof {
        reveal_with_fuel(Seq::filter, 2);
        assert(entries@.take(0) =~= Seq::<DirEntry>::empty());
        assert(dir_names(Seq::<DirEntry>::empty()) =~= Seq::<Seq<char>>::empty());
        assert(out.deep_view() =~= Seq::<Seq<char>>::empty());
    }
    while i < entries.len()
        invariant
            0 <= i <= entries@.len(),
            sorted_texts(out.deep_view()),
            out.deep_view().to_multiset() == dir_names(entries@.take(i as int)).to_multiset(),
        decreases entries@.len() - i,
    {
        let ghost prefix = entries@.take(i as int);
        let is_dir = entries[i].is_dir;
        if is_dir {
            insert_sorted(&mut out, entries[i].name.clone());
        }
        proof {
            reveal_with_fuel(Seq::filter, 2);
            let pred = |e: DirEntry| e.is_dir;
            assert(entries@.take(i as int + 1) =~= prefix + seq![entries@[i as int]]);
            Seq::filter_distributes_over_add(prefix, seq![entries@[i as int]], pred);
            assert(seq![entries@[i as int]].drop_last() =~= Seq::<DirEntry>::empty());
            if is_dir {
                assert(seq![entries@[i as int]].filter(pred) =~= seq![entries@[i as int]]);
                assert(dir_names(entries@.take(i as int + 1)) =~= dir_names(prefix).push(
                    entries@[i as int].name@,
                ));
                dir_names(prefix).to_multiset_ensures();
            } else {
                assert(seq![entries@[i as int]].filter(pred) =~= Seq::<DirEntry>::empty());
                assert(dir_names(entries@.take(i as int + 1)) =~= dir_names(prefix));
            }
        }
        i += 1;
    }
    proof {
        assert(entries@.take(entries@.len() as int) =~= entries@);
    }
    out
}

} // verus!
