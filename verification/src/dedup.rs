//! The deduplicator: filters one pass's candidates into a unique,
//! order-preserving sequence. The dedup key of an item is its link when
//! present, else its normalized (trimmed) title; the first occurrence of
//! a key wins and later duplicates are dropped entirely.

use vstd::prelude::*;

use crate::model::{JournalNew, JournalNewView};
use crate::text::{trim, trim_spec};

verus! {

/// The value two candidates are compared by.
pub enum DedupKey {
    /// The item's link, as extracted and resolved.
    Link(Seq<char>),
    /// The item's title with surrounding whitespace removed, for items
    /// without a link.
    Title(Seq<char>),
}

/// The dedup key of an item: its link if present, else its normalized
/// (trimmed) title.
pub open spec fn dedup_key(item: JournalNewView) -> DedupKey {
    match item.link {
        Some(link) => DedupKey::Link(link),
        None => DedupKey::Title(trim_spec(item.title)),
    }
}

/// Whether some item of `s` has the key `k`.
pub open spec fn seen_key(s: Seq<JournalNewView>, k: DedupKey) -> bool {
    exists|j: int| 0 <= j < s.len() && dedup_key(s[j]) == k
}

/// No two items of `s` share a dedup key.
pub open spec fn distinct_keys(s: Seq<JournalNewView>) -> bool {
    forall|i: int, j: int| 0 <= i < j < s.len() ==> dedup_key(s[i]) != dedup_key(s[j])
}

/// The result of deduplicating the first `n` candidates, in order.
pub open spec fn dedup_upto(s: Seq<JournalNewView>, n: int) -> Seq<JournalNewView>
    decreases n,
{
    if n <= 0 {
        Seq::<JournalNewView>::empty()
    } else {
        let prev = dedup_upto(s, n - 1);
        if seen_key(prev, dedup_key(s[n - 1])) {
            prev
        } else {
            prev.push(s[n - 1])
        }
    }
}

/// The result of deduplicating a candidate sequence.
pub open spec fn dedup_spec(s: Seq<JournalNewView>) -> Seq<JournalNewView> {
    dedup_upto(s, s.len() as int)
}

/// `a` is `b` with zero or more items left out, the rest in their order.
pub open spec fn subsequence_of(a: Seq<JournalNewView>, b: Seq<JournalNewView>) -> bool
    decreases b.len(),
{
    if a.len() == 0 {
        true
    } else if b.len() == 0 {
        false
    } else if a.last() == b.last() {
        subsequence_of(a.drop_last(), b.drop_last())
    } else {
        subsequence_of(a, b.drop_last())
    }
}

fn same_key(a: &JournalNew, b: &JournalNew) -> (r: bool)
    ensures
        r == (dedup_key(a@) == dedup_key(b@)),
{
    match (&a.link, &b.link) {
        (Some(la), Some(lb)) => *la == *lb,
        (None, None) => {
            let ta = trim(a.title.as_str());
            let tb = trim(b.title.as_str());
            ta == tb
        },
        _ => false,
    }
}

fn contains_key_of(v: &Vec<JournalNew>, item: &JournalNew) -> (r: bool)
    ensures
        r == seen_key(v.deep_view(), dedup_key(item@)),
{
    let mut j: usize = 0;
    while j < v.len()
        invariant
            j <= v.len(),
            forall|k: int|
                0 <= k < j ==> dedup_key(#[trigger] v.deep_view()[k]) != dedup_key(item@),
        decreases v.len() - j,
    {
        if same_key(&v[j], item) {
            proof {
                assert(dedup_key(v.deep_view()[j as int]) == dedup_key(item@));
            }
            return true;
        }
        j = j + 1;
    }
    false
}

/// Deduplicates one pass's candidates, in their extraction order.
///
/// The output is the candidate sequence with every candidate dropped
/// whose key already appeared earlier; no two survivors share a key, and
/// survivors keep the relative order of their first appearances.
pub fn dedupe(candidates: Vec<JournalNew>) -> (r: Vec<JournalNew>)
    ensures
        r.deep_view() == dedup_spec(candidates.deep_view()),
        distinct_keys(r.deep_view()),
        subsequence_of(r.deep_view(), candidates.deep_view()),
{
    let mut out: Vec<JournalNew> = Vec::new();
    let mut i: usize = 0;
    while i < candidates.len()
        invariant
            i <= candidates.len(),
            out.deep_view() == dedup_upto(candidates.deep_view(), i as int),
        decreases candidates.len() - i,
    {
        let ghost prev = out.deep_view();
        let candidate = &candidates[i];
        proof {
            assert(candidate@ == candidates.deep_view()[i as int]);
        }
        if !contains_key_of(&out, candidate) {
            out.push(candidate.duplicate());
            proof {
                assert(out.deep_view() =~= prev.push(candidates.deep_view()[i as int]));
            }
        }
        i = i + 1;
    }
    proof {
        lemma_dedup_distinct_keys(candidates.deep_view(), candidates.deep_view().len() as int);
        lemma_dedupe_preserves_order(candidates.deep_view());
    }
    out
}

/// Law: no two items of a deduplicated sequence share a dedup key.
pub proof fn lemma_dedup_distinct_keys(s: Seq<JournalNewView>, n: int)
    requires
        0 <= n <= s.len(),
    ensures
        distinct_keys(dedup_upto(s, n)),
    decreases n,
{
    if n > 0 {
        lemma_dedup_distinct_keys(s, n - 1);
        let prev = dedup_upto(s, n - 1);
        let k = dedup_key(s[n - 1]);
        if !seen_key(prev, k) {
            let cur = prev.push(s[n - 1]);
            assert forall|i: int, j: int| 0 <= i < j < cur.len() implies dedup_key(cur[i])
                != dedup_key(cur[j]) by {
                if j < prev.len() {
                    assert(dedup_key(prev[i]) != dedup_key(prev[j]));
                } else {
                    assert(cur[j] == s[n - 1]);
                    assert(dedup_key(cur[i]) == dedup_key(prev[i]));
                    assert(!(0 <= i < prev.len() && dedup_key(prev[i]) == k));
                }
            }
        }
    }
}

/// Weakening: a subsequence of a prefix is a subsequence of the whole.
proof fn lemma_subsequence_extend(a: Seq<JournalNewView>, b: Seq<JournalNewView>)
    requires
        b.len() > 0,
        subsequence_of(a, b.drop_last()),
    ensures
        subsequence_of(a, b),
    decreases b.len(), 0int,
{
    if a.len() == 0 {
    } else if a.last() == b.last() {
        lemma_subsequence_drop(a, b.drop_last());
    } else {
    }
}

/// Leaving out a subsequence's last item keeps it a subsequence.
proof fn lemma_subsequence_drop(a: Seq<JournalNewView>, b: Seq<JournalNewView>)
    requires
        a.len() > 0,
        subsequence_of(a, b),
    ensures
        subsequence_of(a.drop_last(), b),
    decreases b.len(), 1int,
{
    if a.last() == b.last() {
        if a.drop_last().len() > 0 {
            lemma_subsequence_extend(a.drop_last(), b);
        }
    } else {
        lemma_subsequence_drop(a, b.drop_last());
        if a.drop_last().len() > 0 {
            lemma_subsequence_extend(a.drop_last(), b);
        }
    }
}

proof fn lemma_dedup_subsequence(s: Seq<JournalNewView>, n: int)
    requires
        0 <= n <= s.len(),
    ensures
        subsequence_of(dedup_upto(s, n), s.subrange(0, n)),
    decreases n,
{
    if n == 0 {
    } else {
        lemma_dedup_subsequence(s, n - 1);
        let prev = dedup_upto(s, n - 1);
        let b = s.subrange(0, n);
        assert(b.drop_last() =~= s.subrange(0, n - 1));
        assert(b.last() == s[n - 1]);
        if seen_key(prev, dedup_key(s[n - 1])) {
            lemma_subsequence_extend(prev, b);
        } else {
            let cur = prev.push(s[n - 1]);
            assert(cur.last() == b.last());
            assert(cur.drop_last() =~= prev);
        }
    }
}

/// Law: deduplication never reorders surviving items relative to their
/// first appearance in the candidate sequence.
pub proof fn lemma_dedupe_preserves_order(s: Seq<JournalNewView>)
    ensures
        subsequence_of(dedup_spec(s), s),
{
    lemma_dedup_subsequence(s, s.len() as int);
    assert(s.subrange(0, s.len() as int) =~= s);
}

/// Every item of a deduplicated sequence is one of the candidates.
pub proof fn lemma_dedup_membership(s: Seq<JournalNewView>, n: int)
    requires
        0 <= n <= s.len(),
    ensures
        forall|i: int|
            0 <= i < dedup_upto(s, n).len() ==> exists|j: int|
                0 <= j < n && #[trigger] dedup_upto(s, n)[i] == s[j],
    decreases n,
{
    if n > 0 {
        lemma_dedup_membership(s, n - 1);
        let prev = dedup_upto(s, n - 1);
        let cur = dedup_upto(s, n);
        assert forall|i: int| 0 <= i < cur.len() implies exists|j: int|
            0 <= j < n && #[trigger] cur[i] == s[j] by {
            if i < prev.len() {
                assert(cur[i] == prev[i]);
                let j = choose|j: int| 0 <= j < n - 1 && #[trigger] prev[i] == s[j];
                assert(0 <= j < n && cur[i] == s[j]);
            } else {
                assert(cur[i] == s[n - 1]);
            }
        }
    }
}

/// A sequence whose keys are already distinct comes through unchanged.
proof fn lemma_dedup_of_distinct(s: Seq<JournalNewView>, n: int)
    requires
        0 <= n <= s.len(),
        distinct_keys(s),
    ensures
        dedup_upto(s, n) =~= s.subrange(0, n),
    decreases n,
{
    if n > 0 {
        lemma_dedup_of_distinct(s, n - 1);
        let prev = dedup_upto(s, n - 1);
        let k = dedup_key(s[n - 1]);
        assert(!seen_key(prev, k)) by {
            if seen_key(prev, k) {
                let j = choose|j: int| 0 <= j < prev.len() && dedup_key(prev[j]) == k;
                assert(prev[j] == s.subrange(0, n - 1)[j]);
                assert(dedup_key(s[j]) == dedup_key(s[n - 1]));
            }
        }
    }
}

/// Law: feeding a pass's output through the deduplicator again yields the
/// same sequence, so repeating extraction and deduplication on identical
/// markup yields identical output.
pub proof fn lemma_dedupe_idempotent(s: Seq<JournalNewView>)
    ensures
        dedup_spec(dedup_spec(s)) == dedup_spec(s),
{
    lemma_dedup_distinct_keys(s, s.len() as int);
    let d = dedup_spec(s);
    lemma_dedup_of_distinct(d, d.len() as int);
    assert(d.subrange(0, d.len() as int) =~= d);
}

} // verus!
