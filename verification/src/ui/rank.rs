//! Ranking task types for quick add: by fuzzy match of the search text, or by today's tallies
//! where there is none.
use vstd::prelude::*;

use crate::catalog::{self, TaskType};
use crate::text;
use crate::ui::matcher;
use std::collections::BTreeMap;

verus! {

// --- the order of the rows ---

/// Whether the type at `i` is shown before the one at `j`: it has the higher score, or the same
/// and the name that comes first; types of the same score and name keep their order.
pub open spec fn shown_before(types: Seq<TaskType>, scores: Seq<i64>, i: int, j: int) -> bool {
    ||| scores[i] > scores[j]
    ||| scores[i] == scores[j] && text::text_before(types[i].name@, types[j].name@)
    ||| scores[i] == scores[j] && types[i].name@ == types[j].name@ && i < j
}

/// Whether `order` lists the places of the types that `keep` marks, each once, in display
/// order.
pub open spec fn is_ranking(
    order: Seq<int>,
    types: Seq<TaskType>,
    scores: Seq<i64>,
    keep: Seq<bool>,
) -> bool {
    &&& forall|k: int| 0 <= k < order.len() ==> 0 <= #[trigger] order[k] < types.len()
        && keep[order[k]]
    &&& forall|i: int| 0 <= i < types.len() && #[trigger] keep[i] ==> order.contains(i)
    &&& forall|a: int, b: int|
        0 <= a < b < order.len() ==> shown_before(
            types,
            scores,
            #[trigger] order[a],
            #[trigger] order[b],
        )
}

/// Whether `ids` are the first `limit` of the types that `keep` marks, in display order.
pub open spec fn are_top_ids(
    ids: Seq<i64>,
    types: Seq<TaskType>,
    scores: Seq<i64>,
    keep: Seq<bool>,
    limit: int,
) -> bool {
    exists|order: Seq<int>| #[trigger]
        is_ranking(order, types, scores, keep) && {
            &&& ids.len() == (if order.len() < limit {
                order.len() as int
            } else {
                limit
            })
            &&& forall|k: int| 0 <= k < ids.len() ==> #[trigger] ids[k] == types[order[k]].id
        }
}

proof fn lemma_shown_before_is_strict(types: Seq<TaskType>, scores: Seq<i64>, i: int, j: int)
    ensures
        !(shown_before(types, scores, i, j) && shown_before(types, scores, j, i)),
        i != j ==> shown_before(types, scores, i, j) || shown_before(types, scores, j, i),
{
    text::lemma_text_before_total(types[i].name@, types[j].name@);
    text::lemma_text_before_total(types[j].name@, types[i].name@);
}

proof fn lemma_shown_before_is_transitive(
    types: Seq<TaskType>,
    scores: Seq<i64>,
    i: int,
    j: int,
    k: int,
)
    requires
        shown_before(types, scores, i, j),
        shown_before(types, scores, j, k),
    ensures
        shown_before(types, scores, i, k),
{
    let (a, b, c) = (types[i].name@, types[j].name@, types[k].name@);
    if text::text_before(a, b) && text::text_before(b, c) {
        text::lemma_text_before_transitive(a, b, c);
    }
}

/// The display order is unique: the scores and the names alone decide it.
pub proof fn law_ranking_is_unique(
    a: Seq<int>,
    b: Seq<int>,
    types: Seq<TaskType>,
    scores: Seq<i64>,
    keep: Seq<bool>,
)
    requires
        is_ranking(a, types, scores, keep),
        is_ranking(b, types, scores, keep),
    ensures
        a == b,
{
    assert forall|k: int| 0 <= k < a.len() && k < b.len() implies a[k] == b[k] by {
        lemma_rankings_agree(a, b, types, scores, keep, k);
    }
    if a.len() < b.len() {
        let x = b[a.len() as int];
        assert(keep[x]);
        assert(a.contains(x));
        let j = choose|j: int| 0 <= j < a.len() && a[j] == x;
        assert(b[j] == x);
        lemma_shown_before_is_strict(types, scores, x, x);
        assert(shown_before(types, scores, b[j], b[a.len() as int]));
    }
    if b.len() < a.len() {
        let x = a[b.len() as int];
        assert(keep[x]);
        assert(b.contains(x));
        let j = choose|j: int| 0 <= j < b.len() && b[j] == x;
        assert(a[j] == x);
        lemma_shown_before_is_strict(types, scores, x, x);
        assert(shown_before(types, scores, a[j], a[b.len() as int]));
    }
    assert(a =~= b);
}

proof fn lemma_rankings_agree(
    a: Seq<int>,
    b: Seq<int>,
    types: Seq<TaskType>,
    scores: Seq<i64>,
    keep: Seq<bool>,
    k: int,
)
    requires
        is_ranking(a, types, scores, keep),
        is_ranking(b, types, scores, keep),
        0 <= k < a.len(),
        k < b.len(),
    ensures
        a[k] == b[k],
    decreases k,
{
    assert forall|j: int| 0 <= j < k implies a[j] == b[j] by {
        lemma_rankings_agree(a, b, types, scores, keep, j);
    }
    let x = a[k];
    let y = b[k];
    assert(keep[x] && keep[y]);
    assert(b.contains(x) && a.contains(y));
    let j = choose|j: int| 0 <= j < b.len() && b[j] == x;
    let m = choose|m: int| 0 <= m < a.len() && a[m] == y;
    lemma_shown_before_is_strict(types, scores, x, x);
    lemma_shown_before_is_strict(types, scores, y, y);
    lemma_shown_before_is_strict(types, scores, x, y);
    if x != y {
        if j < k {
            assert(a[j] == x);
            assert(shown_before(types, scores, a[j], a[k]));
        }
        if m < k {
            assert(b[m] == y);
            assert(shown_before(types, scores, b[m], b[k]));
        }
        assert(j != k && m != k);
        assert(shown_before(types, scores, b[k], b[j]));
        assert(shown_before(types, scores, a[k], a[m]));
    }
}

/// Whether a type that `keep` marks has this id.
pub open spec fn is_kept_id(id: i64, types: Seq<TaskType>, keep: Seq<bool>) -> bool {
    exists|i: int| 0 <= i < types.len() && #[trigger] keep[i] && types[i].id == id
}

/// No more rows are shown than the limit, only types that are kept are shown, and none of them
/// twice where the ids of the types differ.
pub proof fn law_top_ids_are_kept_types(
    ids: Seq<i64>,
    types: Seq<TaskType>,
    scores: Seq<i64>,
    keep: Seq<bool>,
    limit: int,
)
    requires
        are_top_ids(ids, types, scores, keep, limit),
        0 <= limit,
    ensures
        ids.len() <= limit,
        forall|k: int| 0 <= k < ids.len() ==> is_kept_id(#[trigger] ids[k], types, keep),
        (forall|i: int, j: int|
            0 <= i < j < types.len() ==> (#[trigger] types[i]).id != (#[trigger] types[j]).id)
            ==> ids.no_duplicates(),
{
    let order = choose|order: Seq<int>| #[trigger]
        is_ranking(order, types, scores, keep) && {
            &&& ids.len() == (if order.len() < limit {
                order.len() as int
            } else {
                limit
            })
            &&& forall|k: int| 0 <= k < ids.len() ==> #[trigger] ids[k] == types[order[k]].id
        };
    assert forall|k: int| 0 <= k < ids.len() implies is_kept_id(#[trigger] ids[k], types, keep) by {
        assert(keep[order[k]]);
    }
    if forall|i: int, j: int|
        0 <= i < j < types.len() ==> (#[trigger] types[i]).id != (#[trigger] types[j]).id {
        assert forall|a: int, b: int| 0 <= a < ids.len() && 0 <= b < ids.len() && a != b implies
            ids[a] != ids[b] by {
            let (x, y) = (order[a], order[b]);
            assert(shown_before(types, scores, x, y) || shown_before(types, scores, y, x));
            lemma_shown_before_is_strict(types, scores, x, x);
            assert(x != y);
            assert(types[x].id != types[y].id);
        }
    }
}

fn goes_before(types: &[TaskType], scores: &Vec<i64>, i: usize, j: usize) -> (r: bool)
    requires
        i < types@.len(),
        j < types@.len(),
        scores@.len() == types@.len(),
    ensures
        r == shown_before(types@, scores@, i as int, j as int),
{
    if scores[i] != scores[j] {
        return scores[i] > scores[j];
    }
    let (a, b) = (types[i].name.as_str(), types[j].name.as_str());
    text::comes_before(a, b) || (text::same_text(a, b) && i < j)
}

/// The places `v` lists, as numbers.
pub open spec fn places(v: Seq<usize>) -> Seq<int> {
    Seq::new(v.len(), |i: int| v[i] as int)
}

/// Whether `v` lists the marked types before place `n`, each once, in display order.
pub open spec fn ranks_first(
    v: Seq<usize>,
    types: Seq<TaskType>,
    scores: Seq<i64>,
    keep: Seq<bool>,
    n: int,
) -> bool {
    &&& forall|k: int| 0 <= k < v.len() ==> (#[trigger] v[k]) < n && keep[v[k] as int]
    &&& forall|i: int| 0 <= i < n && #[trigger] keep[i] ==> exists|k: int|
        0 <= k < v.len() && #[trigger] v[k] == i
    &&& forall|a: int, b: int|
        0 <= a < b < v.len() ==> shown_before(
            types,
            scores,
            (#[trigger] v[a]) as int,
            (#[trigger] v[b]) as int,
        )
}

fn put_in_place(v: &mut Vec<usize>, types: &[TaskType], scores: &Vec<i64>, keep: &Vec<bool>, i: usize)
    requires
        i < types@.len(),
        scores@.len() == types@.len(),
        keep@.len() == types@.len(),
        keep@[i as int],
        ranks_first(old(v)@, types@, scores@, keep@, i as int),
    ensures
        ranks_first(final(v)@, types@, scores@, keep@, i + 1),
{
    let ghost before = v@;
    let mut at: usize = 0;
    while at < v.len() && goes_before(types, scores, v[at], i)
        invariant
            at <= v@.len(),
            v@ == before,
            i < types@.len(),
            scores@.len() == types@.len(),
            ranks_first(before, types@, scores@, keep@, i as int),
            forall|k: int|
                0 <= k < at ==> shown_before(types@, scores@, (#[trigger] v@[k]) as int, i as int),
        decreases v@.len() - at,
    {
        at = at + 1;
    }
    v.insert(at, i);
    proof {
        let after = v@;
        assert forall|k: int| 0 <= k < after.len() implies (#[trigger] after[k]) < i + 1
            && keep@[after[k] as int] by {
            if k < at {
                assert(after[k] == before[k]);
            } else if k > at {
                assert(after[k] == before[k - 1]);
            }
        }
        assert forall|x: int| 0 <= x < i + 1 && #[trigger] keep@[x] implies exists|k: int|
            0 <= k < after.len() && #[trigger] after[k] == x by {
            if x == i {
                assert(after[at as int] == x);
            } else {
                let k = choose|k: int| 0 <= k < before.len() && #[trigger] before[k] == x;
                if k < at {
                    assert(after[k] == x);
                } else {
                    assert(after[k + 1] == x);
                }
            }
        }
        assert forall|k: int| at <= k < before.len() implies shown_before(
            types@,
            scores@,
            i as int,
            (#[trigger] before[k]) as int,
        ) by {
            lemma_shown_before_is_strict(types@, scores@, i as int, before[at as int] as int);
            if k > at {
                lemma_shown_before_is_transitive(
                    types@,
                    scores@,
                    i as int,
                    before[at as int] as int,
                    before[k] as int,
                );
            }
        }
        assert forall|a: int, b: int| 0 <= a < b < after.len() implies shown_before(
            types@,
            scores@,
            (#[trigger] after[a]) as int,
            (#[trigger] after[b]) as int,
        ) by {
            let x = if a < at {
                a
            } else {
                a - 1
            };
            let y = if b < at {
                b
            } else {
                b - 1
            };
            if a != at {
                assert(after[a] == before[x]);
            }
            if b != at {
                assert(after[b] == before[y]);
            }
        }
    }
}

/// The first `limit` of the types that `keep` marks, by score from high to low and by name
/// among equal scores.
pub fn rank_scored(
    types: &[TaskType],
    scores: &Vec<i64>,
    keep: &Vec<bool>,
    limit: usize,
) -> (r: Vec<i64>)
    requires
        scores@.len() == types@.len(),
        keep@.len() == types@.len(),
    ensures
        are_top_ids(r@, types@, scores@, keep@, limit as int),
{
    let mut v: Vec<usize> = Vec::new();
    for i in 0..types.len()
        invariant
            scores@.len() == types@.len(),
            keep@.len() == types@.len(),
            ranks_first(v@, types@, scores@, keep@, i as int),
    {
        if keep[i] {
            put_in_place(&mut v, types, scores, keep, i);
        }
    }
    let ghost order = places(v@);
    proof {
        assert forall|i: int| 0 <= i < types@.len() && #[trigger] keep@[i] implies order.contains(
            i,
        ) by {
            let k = choose|k: int| 0 <= k < v@.len() && #[trigger] v@[k] == i;
            assert(order[k] == i);
        }
        assert forall|k: int| 0 <= k < order.len() implies 0 <= #[trigger] order[k] < types@.len()
            && keep@[order[k]] by {
            assert(v@[k] < types@.len());
        }
        assert forall|a: int, b: int| 0 <= a < b < order.len() implies shown_before(
            types@,
            scores@,
            #[trigger] order[a],
            #[trigger] order[b],
        ) by {
            assert(shown_before(types@, scores@, v@[a] as int, v@[b] as int));
        }
        assert(is_ranking(order, types@, scores@, keep@));
    }
    let n: usize = if v.len() < limit {
        v.len()
    } else {
        limit
    };
    let mut r: Vec<i64> = Vec::new();
    for k in 0..n
        invariant
            n <= v@.len(),
            order == places(v@),
            forall|j: int| 0 <= j < v@.len() ==> (#[trigger] v@[j]) < types@.len(),
            r@.len() == k,
            forall|j: int| 0 <= j < k ==> #[trigger] r@[j] == types@[order[j]].id,
    {
        r.push(types[v[k]].id);
    }
    r
}

// --- ranking a search ---

/// The score of a type: a hit in the name counts twice a hit in the description.
pub open spec fn combined_score(name: Option<u16>, description: Option<u16>) -> i64 {
    let n: int = 2 * (match name {
        Some(s) => s as int,
        None => 0,
    });
    let d: int = match description {
        Some(s) => s as int,
        None => 0,
    };
    (if n > d {
        n
    } else {
        d
    }) as i64
}

fn combine(name: Option<u16>, description: Option<u16>) -> (r: i64)
    ensures
        r == combined_score(name, description),
{
    let n: i64 = match name {
        Some(s) => 2 * (s as i64),
        None => 0,
    };
    let d: i64 = match description {
        Some(s) => s as i64,
        None => 0,
    };
    if n > d {
        n
    } else {
        d
    }
}

/// The score of every type for a search text; only active types are matched.
pub open spec fn search_scores(types: Seq<TaskType>, search: Seq<char>) -> Seq<i64> {
    Seq::new(
        types.len(),
        |i: int|
            if types[i].is_active {
                combined_score(
                    matcher::fuzzy_score(types[i].name@, search),
                    matcher::fuzzy_score(types[i].description@, search),
                )
            } else {
                0
            },
    )
}

/// Today's count of every type.
pub open spec fn today_scores(types: Seq<TaskType>, counts: Map<i64, i64>) -> Seq<i64> {
    Seq::new(types.len(), |i: int| catalog::count_in(counts, types[i].id))
}

/// The active types.
pub open spec fn active_marks(types: Seq<TaskType>) -> Seq<bool> {
    Seq::new(types.len(), |i: int| types[i].is_active)
}

/// The active types that match the search.
pub open spec fn match_marks(types: Seq<TaskType>, scores: Seq<i64>) -> Seq<bool> {
    Seq::new(types.len(), |i: int| types[i].is_active && scores[i] > 0)
}

/// Whether every active type can be matched against the search text.
pub open spec fn searchable(types: Seq<TaskType>, search: Seq<char>) -> bool {
    forall|i: int|
        0 <= i < types.len() && (#[trigger] types[i]).is_active ==> matcher::accepted(
            types[i].name@,
            search,
        ) && matcher::accepted(types[i].description@, search)
}

/// Whether `ids` is the ranking of a search.
pub open spec fn is_search_result(
    ids: Seq<i64>,
    types: Seq<TaskType>,
    counts: Map<i64, i64>,
    search: Seq<char>,
    limit: int,
) -> bool {
    if text::trimmed(search).len() == 0 {
        are_top_ids(ids, types, today_scores(types, counts), active_marks(types), limit)
    } else {
        let scores = search_scores(types, search);
        are_top_ids(ids, types, scores, match_marks(types, scores), limit)
    }
}

/// Whether an active type has this id.
pub open spec fn is_active_id(id: i64, types: Seq<TaskType>) -> bool {
    exists|i: int| 0 <= i < types.len() && (#[trigger] types[i]).is_active && types[i].id == id
}

proof fn lemma_fewer_top_ids(
    few: Seq<i64>,
    many: Seq<i64>,
    types: Seq<TaskType>,
    scores: Seq<i64>,
    keep: Seq<bool>,
    k: int,
    m: int,
)
    requires
        are_top_ids(few, types, scores, keep, k),
        are_top_ids(many, types, scores, keep, m),
        0 <= k <= m,
    ensures
        few == many.take(if k < many.len() { k } else { many.len() as int }),
{
    let a = choose|order: Seq<int>| #[trigger]
        is_ranking(order, types, scores, keep) && {
            &&& few.len() == (if order.len() < k {
                order.len() as int
            } else {
                k
            })
            &&& forall|i: int| 0 <= i < few.len() ==> #[trigger] few[i] == types[order[i]].id
        };
    let b = choose|order: Seq<int>| #[trigger]
        is_ranking(order, types, scores, keep) && {
            &&& many.len() == (if order.len() < m {
                order.len() as int
            } else {
                m
            })
            &&& forall|i: int| 0 <= i < many.len() ==> #[trigger] many[i] == types[order[i]].id
        };
    law_ranking_is_unique(a, b, types, scores, keep);
    assert(few =~= many.take(if k < many.len() { k } else { many.len() as int }));
}

/// A smaller limit only cuts the result short: the rows that remain are the first ones, in the
/// same order. No more rows are shown than the limit, every one is an active type, and none is
/// shown twice where the ids of the types differ.
pub proof fn law_smaller_limit_cuts_short(
    few: Seq<i64>,
    many: Seq<i64>,
    types: Seq<TaskType>,
    counts: Map<i64, i64>,
    search: Seq<char>,
    k: int,
    m: int,
)
    requires
        is_search_result(few, types, counts, search, k),
        is_search_result(many, types, counts, search, m),
        0 <= k <= m,
    ensures
        few == many.take(if k < many.len() { k } else { many.len() as int }),
        many.len() <= m,
        forall|i: int| 0 <= i < many.len() ==> is_active_id(#[trigger] many[i], types),
        (forall|i: int, j: int|
            0 <= i < j < types.len() ==> (#[trigger] types[i]).id != (#[trigger] types[j]).id)
            ==> many.no_duplicates(),
{
    let found = search_scores(types, search);
    let (scores, keep) = if text::trimmed(search).len() == 0 {
        (today_scores(types, counts), active_marks(types))
    } else {
        (found, match_marks(types, found))
    };
    lemma_fewer_top_ids(few, many, types, scores, keep, k, m);
    law_top_ids_are_kept_types(many, types, scores, keep, m);
    assert forall|i: int| 0 <= i < many.len() implies is_active_id(#[trigger] many[i], types) by {
        assert(is_kept_id(many[i], types, keep));
        let p = choose|p: int|
            0 <= p < types.len() && #[trigger] keep[p] && types[p].id == many[i];
        assert(types[p].is_active);
    }
}

/// The score of a type is the better of its two hits, where one in the name counts twice: it is
/// not below either, it is one of the two, and only a type without a hit has none.
pub proof fn law_score_is_the_better_hit(name: Option<u16>, description: Option<u16>)
    ensures
        name matches Some(s) ==> combined_score(name, description) >= 2 * s,
        description matches Some(d) ==> combined_score(name, description) >= d,
        combined_score(name, description) == 0 || (name matches Some(s) && combined_score(
            name,
            description,
        ) == 2 * s) || (description matches Some(d) && combined_score(name, description) == d),
        combined_score(name, description) > 0 <==> (name matches Some(s) && s > 0) || (
        description matches Some(d) && d > 0),
{
}

/// Whether the type at `i` is shown before the one at `j` in a list of ids: wherever the second
/// stands, the first stands before it.
pub open spec fn stands_before(ids: Seq<i64>, first: i64, second: i64) -> bool {
    forall|b: int|
        0 <= b < ids.len() && #[trigger] ids[b] == second ==> exists|a: int|
            0 <= a < b && #[trigger] ids[a] == first
}

pub open spec fn ids_differ(types: Seq<TaskType>) -> bool {
    forall|i: int, j: int|
        0 <= i < j < types.len() ==> (#[trigger] types[i]).id != (#[trigger] types[j]).id
}

proof fn lemma_better_stands_before(
    ids: Seq<i64>,
    types: Seq<TaskType>,
    scores: Seq<i64>,
    keep: Seq<bool>,
    limit: int,
    i: int,
    j: int,
)
    requires
        are_top_ids(ids, types, scores, keep, limit),
        ids_differ(types),
        0 <= i < types.len(),
        0 <= j < types.len(),
        i != j,
        keep[i],
        shown_before(types, scores, i, j),
    ensures
        stands_before(ids, types[i].id, types[j].id),
{
    let order = choose|order: Seq<int>| #[trigger]
        is_ranking(order, types, scores, keep) && {
            &&& ids.len() == (if order.len() < limit {
                order.len() as int
            } else {
                limit
            })
            &&& forall|k: int| 0 <= k < ids.len() ==> #[trigger] ids[k] == types[order[k]].id
        };
    assert(order.contains(i));
    let a = choose|a: int| 0 <= a < order.len() && order[a] == i;
    assert forall|b: int| 0 <= b < ids.len() && #[trigger] ids[b] == types[j].id implies exists|
        p: int,
    | 0 <= p < b && #[trigger] ids[p] == types[i].id by {
        assert(types[order[b]].id == types[j].id);
        assert(order[b] == j);
        lemma_shown_before_is_strict(types, scores, i, j);
        if b < a {
            assert(shown_before(types, scores, order[b], order[a]));
        }
        assert(a != b);
        assert(ids[a] == types[i].id);
    }
}

/// A hit in the name outranks a hit in a description unless that scores twice as much: where
/// one active type is matched in its name and another in its description only, the first is
/// shown before the second.
pub proof fn law_name_hits_come_first(
    ids: Seq<i64>,
    types: Seq<TaskType>,
    counts: Map<i64, i64>,
    search: Seq<char>,
    limit: int,
    i: int,
    j: int,
    hit: u16,
)
    requires
        is_search_result(ids, types, counts, search, limit),
        ids_differ(types),
        text::trimmed(search).len() > 0,
        0 <= i < types.len(),
        0 <= j < types.len(),
        i != j,
        types[i].is_active,
        matcher::fuzzy_score(types[i].name@, search) == Some(hit),
        hit > 0,
        !(matcher::fuzzy_score(types[j].name@, search) is Some),
        matcher::fuzzy_score(types[j].description@, search) matches Some(d) ==> d < 2 * hit,
    ensures
        stands_before(ids, types[i].id, types[j].id),
{
    let scores = search_scores(types, search);
    assert(scores[i] >= 2 * hit);
    assert(scores[j] < 2 * hit);
    lemma_better_stands_before(
        ids,
        types,
        scores,
        match_marks(types, scores),
        limit,
        i,
        j,
    );
}

/// Among types that are both matched in the name, the better match comes first, unless a
/// description scores more than twice as much; on a tie the name that comes first in the
/// dictionary does.
pub proof fn law_better_matches_come_first(
    ids: Seq<i64>,
    types: Seq<TaskType>,
    counts: Map<i64, i64>,
    search: Seq<char>,
    limit: int,
    i: int,
    j: int,
    better: u16,
    worse: u16,
)
    requires
        is_search_result(ids, types, counts, search, limit),
        ids_differ(types),
        text::trimmed(search).len() > 0,
        0 <= i < types.len(),
        0 <= j < types.len(),
        i != j,
        types[i].is_active,
        matcher::fuzzy_score(types[i].name@, search) == Some(better),
        matcher::fuzzy_score(types[j].name@, search) == Some(worse),
        matcher::fuzzy_score(types[i].description@, search) matches Some(d) ==> d <= 2 * better,
        matcher::fuzzy_score(types[j].description@, search) matches Some(d) ==> d <= 2 * worse,
        better > worse || (better == worse && better > 0 && types[j].is_active && text::text_before(
            types[i].name@,
            types[j].name@,
        )),
    ensures
        stands_before(ids, types[i].id, types[j].id),
{
    let scores = search_scores(types, search);
    assert(scores[i] == 2 * better);
    assert(scores[j] == if types[j].is_active { 2 * worse } else { 0 });
    lemma_better_stands_before(
        ids,
        types,
        scores,
        match_marks(types, scores),
        limit,
        i,
        j,
    );
}

/// A search shows every active type that it matches in name or description, as far as the limit
/// allows, and no other.
pub proof fn law_search_shows_what_matches(
    ids: Seq<i64>,
    types: Seq<TaskType>,
    counts: Map<i64, i64>,
    search: Seq<char>,
    limit: int,
    i: int,
)
    requires
        is_search_result(ids, types, counts, search, limit),
        ids_differ(types),
        text::trimmed(search).len() > 0,
        0 <= i < types.len(),
    ensures
        ids.contains(types[i].id) ==> types[i].is_active && ((matcher::fuzzy_score(
            types[i].name@,
            search,
        ) matches Some(s) && s > 0) || (matcher::fuzzy_score(
            types[i].description@,
            search,
        ) matches Some(s) && s > 0)),
        ids.len() < limit && types[i].is_active && ((matcher::fuzzy_score(
            types[i].name@,
            search,
        ) matches Some(s) && s > 0) || (matcher::fuzzy_score(
            types[i].description@,
            search,
        ) matches Some(s) && s > 0)) ==> ids.contains(types[i].id),
{
    let scores = search_scores(types, search);
    lemma_shown_are_kept(ids, types, scores, match_marks(types, scores), limit, i);
    law_score_is_the_better_hit(
        matcher::fuzzy_score(types[i].name@, search),
        matcher::fuzzy_score(types[i].description@, search),
    );
}

proof fn lemma_shown_are_kept(
    ids: Seq<i64>,
    types: Seq<TaskType>,
    scores: Seq<i64>,
    keep: Seq<bool>,
    limit: int,
    i: int,
)
    requires
        are_top_ids(ids, types, scores, keep, limit),
        ids_differ(types),
        0 <= i < types.len(),
    ensures
        ids.contains(types[i].id) ==> keep[i],
        ids.len() < limit && keep[i] ==> ids.contains(types[i].id),
{
    let order = choose|order: Seq<int>| #[trigger]
        is_ranking(order, types, scores, keep) && {
            &&& ids.len() == (if order.len() < limit {
                order.len() as int
            } else {
                limit
            })
            &&& forall|k: int| 0 <= k < ids.len() ==> #[trigger] ids[k] == types[order[k]].id
        };
    if ids.contains(types[i].id) {
        let b = choose|b: int| 0 <= b < ids.len() && ids[b] == types[i].id;
        assert(types[order[b]].id == types[i].id);
        assert(order[b] == i);
    }
    if ids.len() < limit && keep[i] {
        assert(order.contains(i));
        let a = choose|a: int| 0 <= a < order.len() && order[a] == i;
        assert(ids[a] == types[i].id);
    }
}

/// Without a search text every active type is shown, as far as the limit allows, and no other:
/// the one with more tallies today first, and on a tie the one whose name comes first. A type
/// without an entry in today's counts has none.
pub proof fn law_busiest_types_come_first(
    ids: Seq<i64>,
    types: Seq<TaskType>,
    counts: Map<i64, i64>,
    search: Seq<char>,
    limit: int,
    i: int,
    j: int,
)
    requires
        is_search_result(ids, types, counts, search, limit),
        ids_differ(types),
        text::trimmed(search).len() == 0,
        0 <= i < types.len(),
        0 <= j < types.len(),
        i != j,
    ensures
        ids.contains(types[i].id) ==> types[i].is_active,
        ids.len() < limit && types[i].is_active ==> ids.contains(types[i].id),
        types[i].is_active && counts.contains_key(types[i].id) && counts.contains_key(types[j].id)
            && (counts[types[i].id] > counts[types[j].id] || (counts[types[i].id]
            == counts[types[j].id] && text::text_before(types[i].name@, types[j].name@)))
            ==> stands_before(ids, types[i].id, types[j].id),
        types[i].is_active && counts.contains_key(types[i].id) && counts[types[i].id] > 0
            && !counts.contains_key(types[j].id) ==> stands_before(ids, types[i].id, types[j].id),
{
    let scores = today_scores(types, counts);
    lemma_shown_are_kept(ids, types, scores, active_marks(types), limit, i);
    if types[i].is_active && shown_before(types, scores, i, j) {
        lemma_better_stands_before(ids, types, scores, active_marks(types), limit, i, j);
    }
}

/// Ranks active types by `search` against name and description, where a hit in the name counts
/// twice, or by today's tally count where there is no search text. Returns the ids in display
/// order, no more than `limit`.
pub fn rank(
    types: &[TaskType],
    today_counts: &BTreeMap<i64, i64>,
    search: &str,
    limit: usize,
) -> (r: Vec<i64>)
    requires
        text::trimmed(search@).len() == 0 || searchable(types@, search@),
    ensures
        is_search_result(r@, types@, today_counts@, search@, limit as int),
{
    let mut scores: Vec<i64> = Vec::new();
    let mut keep: Vec<bool> = Vec::new();
    if text::is_blank(search) {
        for i in 0..types.len()
            invariant
                scores@ == today_scores(types@, today_counts@).take(i as int),
                keep@ == active_marks(types@).take(i as int),
        {
            scores.push(catalog::count_of(today_counts, types[i].id));
            keep.push(types[i].is_active);
            assert(scores@ =~= today_scores(types@, today_counts@).take(i + 1));
            assert(keep@ =~= active_marks(types@).take(i + 1));
        }
        assert(scores@ =~= today_scores(types@, today_counts@));
        assert(keep@ =~= active_marks(types@));
        return rank_scored(types, &scores, &keep, limit);
    }
    let ghost all = search_scores(types@, search@);
    for i in 0..types.len()
        invariant
            searchable(types@, search@),
            all == search_scores(types@, search@),
            scores@ == all.take(i as int),
            keep@ == match_marks(types@, all).take(i as int),
    {
        let t = &types[i];
        let score: i64 = if t.is_active {
            combine(
                matcher::fuzzy_match(t.name.as_str(), search),
                matcher::fuzzy_match(t.description.as_str(), search),
            )
        } else {
            0
        };
        assert(score == all[i as int]);
        scores.push(score);
        keep.push(t.is_active && score > 0);
        assert(scores@ =~= all.take(i + 1));
        assert(keep@ =~= match_marks(types@, all).take(i + 1));
    }
    assert(scores@ =~= all);
    assert(keep@ =~= match_marks(types@, all));
    rank_scored(types, &scores, &keep, limit)
}

/// Whether every active type can be matched against the search text.
pub fn can_search(types: &[TaskType], search: &str) -> (r: bool)
    ensures
        r == searchable(types@, search@),
{
    for i in 0..types.len()
        invariant
            forall|k: int|
                0 <= k < i && (#[trigger] types@[k]).is_active ==> matcher::accepted(
                    types@[k].name@,
                    search@,
                ) && matcher::accepted(types@[k].description@, search@),
    {
        if types[i].is_active && !(matcher::can_match(types[i].name.as_str(), search) && matcher::can_match(
            types[i].description.as_str(),
            search,
        )) {
            assert(types@[i as int].is_active);
            return false;
        }
    }
    true
}

/// As [`rank`], for any search text: `None` where a type cannot be matched against it.
pub fn rank_checked(
    types: &[TaskType],
    today_counts: &BTreeMap<i64, i64>,
    search: &str,
    limit: usize,
) -> (r: Option<Vec<i64>>)
    ensures
        match r {
            Some(ids) => (text::trimmed(search@).len() == 0 || searchable(types@, search@))
                && is_search_result(ids@, types@, today_counts@, search@, limit as int),
            None => text::trimmed(search@).len() > 0 && !searchable(types@, search@),
        },
{
    if text::is_blank(search) || can_search(types, search) {
        Some(rank(types, today_counts, search, limit))
    } else {
        None
    }
}

/// A search is possible where the name and the description of every active type can be matched;
/// inactive types are not looked at.
pub proof fn law_every_active_type_must_be_matchable(
    types: Seq<TaskType>,
    search: Seq<char>,
    i: int,
)
    requires
        0 <= i < types.len(),
    ensures
        searchable(types, search) && types[i].is_active ==> matcher::accepted(
            types[i].name@,
            search,
        ) && matcher::accepted(types[i].description@, search),
        (forall|k: int| 0 <= k < types.len() ==> !(#[trigger] types[k]).is_active) ==> searchable(
            types,
            search,
        ),
        !searchable(types, search) ==> exists|k: int|
            0 <= k < types.len() && (#[trigger] types[k]).is_active && (!matcher::accepted(
                types[k].name@,
                search,
            ) || !matcher::accepted(types[k].description@, search)),
{
}

} // verus!
