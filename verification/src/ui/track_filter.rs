//! Fuzzy filtering of a track list: which tracks match a query, best first.
use vstd::prelude::*;

use fuzzy_matcher::FuzzyMatcher;
use fuzzy_matcher::skim::SkimMatcherV2;

use crate::messages::Track;
use crate::text::{concat3, lemma_trim_idempotent, trim, trim_str};

verus! {

/// The score that the skim fuzzy matcher (V2, default smart-case
/// configuration) gives `choice` for `pattern`, or `None` when the pattern's
/// characters do not all occur in order in the choice.
pub uninterp spec fn skim_score(choice: Seq<char>, pattern: Seq<char>) -> Option<i64>;

/// `SkimMatcherV2::default().fuzzy_match(choice, pattern)`. The contract only
/// names the result: it is a function of the two strings alone (the matcher's
/// caches hold scratch space, not results). Its scoring rules are not stated.
#[verifier::external_body]
fn skim_fuzzy_match(choice: &str, pattern: &str) -> (score: Option<i64>)
    ensures
        score == skim_score(choice@, pattern@),
{
    SkimMatcherV2::default().fuzzy_match(choice, pattern)
}

/// The text a track is matched against: its name, a space and its artist.
pub open spec fn haystack(t: Track) -> Seq<char> {
    t.name@ + " "@ + t.artist@
}

/// The matcher's score of each track for `query`.
pub open spec fn track_scores(tracks: Seq<Track>, query: Seq<char>) -> Seq<Option<i64>> {
    Seq::new(tracks.len(), |i: int| skim_score(haystack(tracks[i]), query))
}

/// The number of entries of `ranked` whose score is at least `s`.
pub open spec fn count_at_least(scores: Seq<Option<i64>>, ranked: Seq<usize>, s: i64) -> nat
    decreases ranked.len(),
{
    if ranked.len() == 0 {
        0
    } else {
        count_at_least(scores, ranked.drop_last(), s) + if score_of(scores, ranked.last() as int) >= s { 1nat } else { 0nat }
    }
}

/// The score of entry `i` (only meaningful for matching entries).
pub open spec fn score_of(scores: Seq<Option<i64>>, i: int) -> i64 {
    match scores[i] {
        Some(s) => s,
        None => 0,
    }
}

/// The matching entries, best score first; equal scores keep their order.
pub open spec fn rank(scores: Seq<Option<i64>>) -> Seq<usize>
    decreases scores.len(),
{
    if scores.len() == 0 {
        Seq::empty()
    } else {
        let r = rank(scores.drop_last());
        let i = scores.len() - 1;
        match scores.last() {
            Some(s) => r.insert(count_at_least(scores, r, s) as int, i as usize),
            None => r,
        }
    }
}

/// What a filter with `query` shows: everything for a blank query, else the
/// matching tracks best first, with their positions in the full list.
pub open spec fn filter_tracks(tracks: Seq<Track>, query: Seq<char>) -> (Seq<Track>, Seq<usize>) {
    let q = trim(query);
    if q.len() == 0 {
        (tracks, Seq::new(tracks.len(), |i: int| i as usize))
    } else {
        let idx = rank(track_scores(tracks, q));
        (Seq::new(idx.len(), |k: int| tracks[idx[k] as int]), idx)
    }
}

proof fn lemma_scores_prefix(scores: Seq<Option<i64>>, r: Seq<usize>, n: int)
    requires
        0 <= n <= scores.len(),
        forall|k: int| 0 <= k < r.len() ==> (#[trigger] r[k]) < n,
    ensures
        forall|s: i64| count_at_least(scores.take(n), r, s) == count_at_least(scores, r, s),
    decreases r.len(),
{
    assert forall|s: i64| count_at_least(scores.take(n), r, s) == count_at_least(scores, r, s) by {
        lemma_count_prefix(scores, r, n, s);
    }
}

proof fn lemma_count_prefix(scores: Seq<Option<i64>>, r: Seq<usize>, n: int, s: i64)
    requires
        0 <= n <= scores.len(),
        forall|k: int| 0 <= k < r.len() ==> (#[trigger] r[k]) < n,
    ensures
        count_at_least(scores.take(n), r, s) == count_at_least(scores, r, s),
    decreases r.len(),
{
    if r.len() > 0 {
        let d = r.drop_last();
        assert forall|k: int| 0 <= k < d.len() implies (#[trigger] d[k]) < n by {
            assert(d[k] == r[k]);
        }
        lemma_count_prefix(scores, d, n, s);
        assert(r[r.len() - 1] < n);
    }
}

pub proof fn lemma_rank_below(scores: Seq<Option<i64>>)
    ensures
        forall|k: int| 0 <= k < rank(scores).len() ==> (#[trigger] rank(scores)[k]) < scores.len(),
        rank(scores).len() <= scores.len(),
    decreases scores.len(),
{
    if scores.len() > 0 {
        lemma_rank_below(scores.drop_last());
        let r = rank(scores.drop_last());
        if let Some(s) = scores.last() {
            lemma_count_bound(scores, r, s);
            let p = count_at_least(scores, r, s) as int;
            let r2 = r.insert(p, (scores.len() - 1) as usize);
            assert forall|k: int| 0 <= k < r2.len() implies (#[trigger] r2[k]) < scores.len() by {
                if k < p {
                    assert(r2[k] == r[k]);
                } else if k > p {
                    assert(r2[k] == r[k - 1]);
                }
            }
        }
    }
}

proof fn lemma_count_bound(scores: Seq<Option<i64>>, r: Seq<usize>, s: i64)
    ensures
        count_at_least(scores, r, s) <= r.len(),
    decreases r.len(),
{
    if r.len() > 0 {
        lemma_count_bound(scores, r.drop_last(), s);
    }
}

/// The positions of the matching scores, best first, equal scores in order.
pub fn rank_matches(scores: &Vec<Option<i64>>) -> (ranked: Vec<usize>)
    ensures
        ranked@ == rank(scores@),
{
    let mut ranked: Vec<usize> = Vec::new();
    let mut i: usize = 0;
    while i < scores.len()
        invariant
            i <= scores.len(),
            ranked@ == rank(scores@.take(i as int)),
            forall|k: int| 0 <= k < ranked@.len() ==> (#[trigger] ranked@[k]) < i,
            ranked@.len() <= i,
            sorted_by_score(scores@, ranked@),
        decreases scores.len() - i,
    {
        let ghost before = ranked@;
        let ghost pre = scores@.take(i as int);
        let ghost post = scores@.take(i + 1);
        assert(post.drop_last() =~= pre);
        proof {
            lemma_scores_prefix(scores@, before, i as int);
            lemma_scores_prefix(post, before, i as int);
            assert(post.take(i as int) =~= pre);
        }
        if let Some(s) = scores[i] {
            // Count the leading entries whose score is at least `s`: the ranked
            // list is sorted best first, so they form a prefix.
            let mut p: usize = 0;
            while p < ranked.len() && entry_score(scores, ranked[p]) >= s
                invariant
                    p <= ranked@.len(),
                    ranked@ == before,
                    forall|k: int| 0 <= k < ranked@.len() ==> (#[trigger] ranked@[k]) < i,
                    i < scores@.len(),
                    forall|k: int| 0 <= k < p ==> score_of(scores@, #[trigger] before[k] as int) >= s,
                decreases ranked.len() - p,
            {
                p += 1;
            }
            proof {
                lemma_count_splits(scores@, before, s);
                let c = count_at_least(scores@, before, s);
                if c < p {
                    assert(score_of(scores@, before[c as int] as int) >= s);
                }
                if c > p {
                    assert(score_of(scores@, before[p as int] as int) >= s);
                }
                assert(c == p);
            }
            ranked.insert(p, i);
            proof {
                let r2 = ranked@;
                assert forall|a: int, b: int| 0 <= a < b < r2.len() implies score_of(scores@, r2[a] as int) >= score_of(scores@, r2[b] as int) by {
                    let sa = if a < p { before[a] } else if a == p { i } else { before[a - 1] };
                    let sb = if b < p { before[b] } else if b == p { i } else { before[b - 1] };
                    assert(r2[a] == sa && r2[b] == sb);
                    assert(score_of(scores@, i as int) == s);
                }
                assert forall|k: int| 0 <= k < r2.len() implies (#[trigger] r2[k]) < i + 1 by {
                    if k < p { assert(r2[k] == before[k]); } else if k > p { assert(r2[k] == before[k - 1]); }
                }
            }
        }
        i += 1;
        proof {
            assert(scores@.take(i as int) == post);
            if let Some(s) = scores@[i - 1] {
                assert(post.last() == Some(s));
            }
        }
    }
    assert(scores@.take(scores@.len() as int) =~= scores@);
    ranked
}

fn entry_score(scores: &Vec<Option<i64>>, i: usize) -> (s: i64)
    requires
        i < scores@.len(),
    ensures
        s == score_of(scores@, i as int),
{
    match scores[i] {
        Some(s) => s,
        None => 0,
    }
}

/// The entries are in order of nonincreasing score.
pub open spec fn sorted_by_score(scores: Seq<Option<i64>>, r: Seq<usize>) -> bool {
    forall|a: int, b: int| 0 <= a < b < r.len() ==> score_of(scores, r[a] as int) >= score_of(scores, r[b] as int)
}

proof fn lemma_count_splits(scores: Seq<Option<i64>>, r: Seq<usize>, s: i64)
    requires
        sorted_by_score(scores, r),
    ensures
        count_at_least(scores, r, s) <= r.len(),
        forall|k: int| 0 <= k < count_at_least(scores, r, s) ==> score_of(scores, #[trigger] r[k] as int) >= s,
        forall|k: int| count_at_least(scores, r, s) <= k < r.len() ==> score_of(scores, #[trigger] r[k] as int) < s,
    decreases r.len(),
{
    if r.len() > 0 {
        let d = r.drop_last();
        assert(sorted_by_score(scores, d)) by {
            assert forall|a: int, b: int| 0 <= a < b < d.len() implies score_of(scores, d[a] as int) >= score_of(scores, d[b] as int) by {
                assert(d[a] == r[a] && d[b] == r[b]);
            }
        }
        lemma_count_splits(scores, d, s);
        let cd = count_at_least(scores, d, s);
        let x = r.last();
        if score_of(scores, x as int) >= s {
            if cd < d.len() {
                assert(score_of(scores, d[cd as int] as int) < s);
                assert(score_of(scores, r[cd as int] as int) >= score_of(scores, r[r.len() - 1] as int));
                assert(false);
            }
            assert forall|k: int| 0 <= k < count_at_least(scores, r, s) implies score_of(scores, #[trigger] r[k] as int) >= s by {
                if k < d.len() {
                    assert(r[k] == d[k]);
                }
            }
        } else {
            assert forall|k: int| 0 <= k < count_at_least(scores, r, s) implies score_of(scores, #[trigger] r[k] as int) >= s by {
                assert(r[k] == d[k]);
            }
            assert forall|k: int| count_at_least(scores, r, s) <= k < r.len() implies score_of(scores, #[trigger] r[k] as int) < s by {
                if k < d.len() {
                    assert(r[k] == d[k]);
                }
            }
        }
    }
}

proof fn lemma_rank_members(scores: Seq<Option<i64>>)
    requires
        scores.len() <= usize::MAX,
    ensures
        forall|k: int| 0 <= k < rank(scores).len() ==> (#[trigger] scores[rank(scores)[k] as int]) is Some,
        forall|i: int| 0 <= i < scores.len() && (#[trigger] scores[i]) is Some ==> rank(scores).contains(i as usize),
    decreases scores.len(),
{
    lemma_rank_below(scores);
    if scores.len() > 0 {
        let d = scores.drop_last();
        lemma_rank_members(d);
        lemma_rank_below(d);
        let r = rank(d);
        let n = scores.len() - 1;
        if let Some(sc) = scores.last() {
            lemma_count_bound(scores, r, sc);
            let p = count_at_least(scores, r, sc) as int;
            let r2 = r.insert(p, n as usize);
            assert forall|k: int| 0 <= k < r2.len() implies (#[trigger] scores[r2[k] as int]) is Some by {
                if k < p {
                    assert(r2[k] == r[k]);
                    assert(d[r[k] as int] is Some);
                } else if k > p {
                    assert(r2[k] == r[k - 1]);
                    assert(d[r[k - 1] as int] is Some);
                } else {
                    assert(r2[k] == n as usize);
                }
            }
            assert forall|i: int| 0 <= i < scores.len() && (#[trigger] scores[i]) is Some implies r2.contains(i as usize) by {
                if i == n {
                    assert(r2[p] == n as usize);
                } else {
                    assert(d[i] == scores[i]);
                    assert(r.contains(i as usize));
                    let k = choose|k: int| 0 <= k < r.len() && r[k] == i as usize;
                    if k < p { assert(r2[k] == r[k]); } else { assert(r2[k + 1] == r[k]); }
                }
            }
        } else {
            assert forall|k: int| 0 <= k < r.len() implies (#[trigger] scores[r[k] as int]) is Some by {
                assert(d[r[k] as int] is Some);
            }
            assert forall|i: int| 0 <= i < scores.len() && (#[trigger] scores[i]) is Some implies r.contains(i as usize) by {
                assert(d[i] == scores[i]);
            }
        }
    }
}

/// Entries that scored the same are in increasing position.
pub open spec fn ties_in_order(scores: Seq<Option<i64>>, r: Seq<usize>) -> bool {
    forall|a: int, b: int| 0 <= a < b < r.len()
        && score_of(scores, r[a] as int) == score_of(scores, r[b] as int)
        ==> r[a] < r[b]
}

proof fn lemma_rank_order(scores: Seq<Option<i64>>)
    requires
        scores.len() <= usize::MAX,
    ensures
        sorted_by_score(scores, rank(scores)),
        ties_in_order(scores, rank(scores)),
    decreases scores.len(),
{
    lemma_rank_below(scores);
    if scores.len() > 0 {
        let d = scores.drop_last();
        lemma_rank_order(d);
        lemma_rank_below(d);
        let r = rank(d);
        let n = scores.len() - 1;
        assert forall|k: int| 0 <= k < r.len() implies score_of(d, #[trigger] r[k] as int) == score_of(scores, r[k] as int) by {
            assert(d[r[k] as int] == scores[r[k] as int]);
        }
        assert(sorted_by_score(scores, r) && ties_in_order(scores, r)) by {
            assert forall|a: int, b: int| 0 <= a < b < r.len() implies score_of(scores, r[a] as int) >= score_of(scores, r[b] as int) by {
                assert(score_of(d, r[a] as int) == score_of(scores, r[a] as int));
                assert(score_of(d, r[b] as int) == score_of(scores, r[b] as int));
            }
            assert forall|a: int, b: int| 0 <= a < b < r.len()
                && score_of(scores, r[a] as int) == score_of(scores, r[b] as int) implies r[a] < r[b] by {
                assert(score_of(d, r[a] as int) == score_of(scores, r[a] as int));
                assert(score_of(d, r[b] as int) == score_of(scores, r[b] as int));
            }
        }
        if let Some(sc) = scores.last() {
            lemma_count_splits(scores, r, sc);
            let p = count_at_least(scores, r, sc) as int;
            let r2 = r.insert(p, n as usize);
            assert(score_of(scores, n) == sc);
            assert forall|a: int, b: int| 0 <= a < b < r2.len() implies score_of(scores, r2[a] as int) >= score_of(scores, r2[b] as int)
                && (score_of(scores, r2[a] as int) == score_of(scores, r2[b] as int) ==> r2[a] < r2[b]) by {
                if a < p { assert(r2[a] == r[a]); } else if a > p { assert(r2[a] == r[a - 1]); } else { assert(r2[a] == n as usize); }
                if b < p { assert(r2[b] == r[b]); } else if b > p { assert(r2[b] == r[b - 1]); } else { assert(r2[b] == n as usize); }
            }
        }
    }
}

/// The ranking of match scores lists exactly the matching entries, in order
/// of nonincreasing score, and entries with equal scores in the order they
/// had in the list.
pub proof fn law_rank_orders_matches(scores: Seq<Option<i64>>)
    requires
        scores.len() <= usize::MAX,
    ensures
        forall|k: int| 0 <= k < rank(scores).len() ==> (#[trigger] scores[rank(scores)[k] as int]) is Some,
        forall|i: int| 0 <= i < scores.len() && (#[trigger] scores[i]) is Some ==> rank(scores).contains(i as usize),
        sorted_by_score(scores, rank(scores)),
        ties_in_order(scores, rank(scores)),
{
    lemma_rank_members(scores);
    lemma_rank_order(scores);
}

/// The tracks a filter with `query` shows, with their positions in `tracks`.
pub fn filter_track_list(tracks: &Vec<Track>, query: &str) -> (out: (Vec<Track>, Vec<usize>))
    ensures
        out.0@ == filter_tracks(tracks@, query@).0,
        out.1@ == filter_tracks(tracks@, query@).1,
{
    let q = trim_str(query);
    if crate::text::is_blank(q.as_str()) {
        let mut idx: Vec<usize> = Vec::new();
        let mut i: usize = 0;
        while i < tracks.len()
            invariant
                i <= tracks.len(),
                idx@ == Seq::new(i as nat, |k: int| k as usize),
            decreases tracks.len() - i,
        {
            idx.push(i);
            i += 1;
            assert(idx@ =~= Seq::new(i as nat, |k: int| k as usize));
        }
        proof {
            assert(trim(q@) == q@) by { lemma_trim_idempotent(query@); }
        }
        return (crate::messages::clone_tracks(tracks), idx);
    }
    proof {
        lemma_trim_idempotent(query@);
    }
    let mut scores: Vec<Option<i64>> = Vec::new();
    let mut i: usize = 0;
    while i < tracks.len()
        invariant
            i <= tracks.len(),
            q@ == trim(query@),
            scores@ == track_scores(tracks@, q@).take(i as int),
        decreases tracks.len() - i,
    {
        let h = concat3(tracks[i].name.as_str(), " ", tracks[i].artist.as_str());
        scores.push(skim_fuzzy_match(h.as_str(), q.as_str()));
        i += 1;
        assert(scores@ =~= track_scores(tracks@, q@).take(i as int));
    }
    assert(scores@ =~= track_scores(tracks@, q@));
    let idx = rank_matches(&scores);
    proof {
        lemma_rank_below(scores@);
    }
    let mut shown: Vec<Track> = Vec::new();
    let mut k: usize = 0;
    while k < idx.len()
        invariant
            k <= idx.len(),
            idx@ == rank(scores@),
            scores@.len() == tracks@.len(),
            forall|j: int| 0 <= j < idx@.len() ==> (#[trigger] idx@[j]) < scores@.len(),
            shown@ == Seq::new(k as nat, |j: int| tracks@[idx@[j] as int]),
        decreases idx.len() - k,
    {
        shown.push(tracks[idx[k]].clone());
        k += 1;
        assert(shown@ =~= Seq::new(k as nat, |j: int| tracks@[idx@[j] as int]));
    }
    (shown, idx)
}

} // verus!
