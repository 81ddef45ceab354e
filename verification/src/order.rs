//! Merging result lists without repeated identifiers, and stable sorting.

use crate::paper::{Paper, PaperView, papers_view};
use vstd::prelude::*;

verus! {

/// What papers are sorted by, largest first.
#[derive(Clone, Copy)]
pub enum SortKey {
    /// The publication time.
    Published,
    /// The relevance score; a paper without one comes after every scored paper.
    Relevance,
}

/// The value by which `p` is sorted.
pub open spec fn key_of(p: PaperView, k: SortKey) -> int {
    match k {
        SortKey::Published => p.published.key(),
        SortKey::Relevance => match p.relevance_score {
            Some(s) => s as int,
            None => i64::MIN - 1,
        },
    }
}

/// `x` inserted into `sorted` after every element whose key is at least its own.
pub open spec fn insert_desc(sorted: Seq<PaperView>, x: PaperView, k: SortKey) -> Seq<PaperView>
    decreases sorted.len(),
{
    if sorted.len() == 0 {
        seq![x]
    } else if key_of(sorted.last(), k) >= key_of(x, k) {
        sorted.push(x)
    } else {
        insert_desc(sorted.drop_last(), x, k).push(sorted.last())
    }
}

/// `ps` sorted by key, largest first; papers with equal keys keep their order
/// (the stable sort of `slice::sort_by`).
pub open spec fn sort_desc(ps: Seq<PaperView>, k: SortKey) -> Seq<PaperView>
    decreases ps.len(),
{
    if ps.len() == 0 {
        Seq::empty()
    } else {
        insert_desc(sort_desc(ps.drop_last(), k), ps.last(), k)
    }
}

/// The keys of `s` do not increase.
pub open spec fn sorted_desc(s: Seq<PaperView>, k: SortKey) -> bool {
    forall|i: int, j: int| 0 <= i <= j < s.len() ==> key_of(#[trigger] s[i], k) >= key_of(#[trigger] s[j], k)
}

/// Where `insert_desc` puts `x`.
pub open spec fn insert_pos(sorted: Seq<PaperView>, x: PaperView, k: SortKey) -> int
    decreases sorted.len(),
{
    if sorted.len() == 0 {
        0
    } else if key_of(sorted.last(), k) >= key_of(x, k) {
        sorted.len() as int
    } else {
        insert_pos(sorted.drop_last(), x, k)
    }
}

pub proof fn lemma_insert_pos(sorted: Seq<PaperView>, x: PaperView, k: SortKey)
    ensures
        0 <= insert_pos(sorted, x, k) <= sorted.len(),
        insert_desc(sorted, x, k) == sorted.insert(insert_pos(sorted, x, k), x),
        forall|j: int| insert_pos(sorted, x, k) <= j < sorted.len() ==> key_of(#[trigger] sorted[j], k) < key_of(x, k),
        insert_pos(sorted, x, k) > 0 ==> key_of(sorted[insert_pos(sorted, x, k) - 1], k) >= key_of(x, k),
    decreases sorted.len(),
{
    if sorted.len() == 0 {
        assert(seq![x] =~= sorted.insert(0, x));
    } else if key_of(sorted.last(), k) >= key_of(x, k) {
        assert(sorted.push(x) =~= sorted.insert(sorted.len() as int, x));
    } else {
        let d = sorted.drop_last();
        lemma_insert_pos(d, x, k);
        let p = insert_pos(d, x, k);
        assert(d.insert(p, x).push(sorted.last()) =~= sorted.insert(p, x));
        assert forall|j: int| p <= j < sorted.len() implies key_of(#[trigger] sorted[j], k) < key_of(x, k) by {
            if j < d.len() {
                assert(sorted[j] == d[j]);
            }
        }
    }
}

/// Sorting yields keys that never increase.
pub proof fn lemma_sort_desc_sorted(ps: Seq<PaperView>, k: SortKey)
    ensures
        sorted_desc(sort_desc(ps, k), k),
        sort_desc(ps, k).len() == ps.len(),
    decreases ps.len(),
{
    if ps.len() > 0 {
        let d = ps.drop_last();
        let x = ps.last();
        lemma_sort_desc_sorted(d, k);
        let s = sort_desc(d, k);
        lemma_insert_pos(s, x, k);
        let p = insert_pos(s, x, k);
        let r = s.insert(p, x);
        assert forall|i: int, j: int| 0 <= i <= j < r.len() implies key_of(#[trigger] r[i], k) >= key_of(
            #[trigger] r[j],
            k,
        ) by {
            if i < p && j < p {
                assert(r[i] == s[i] && r[j] == s[j]);
            } else if i < p && j == p {
                assert(r[i] == s[i]);
                assert(key_of(s[i], k) >= key_of(s[p - 1], k));
            } else if i < p && j > p {
                assert(r[i] == s[i] && r[j] == s[j - 1]);
            } else if i == p && j > p {
                assert(r[j] == s[j - 1]);
            } else if i > p {
                assert(r[i] == s[i - 1] && r[j] == s[j - 1]);
            }
        }
    }
}

/// Sorting neither loses nor adds papers.
pub proof fn lemma_sort_desc_permutes(ps: Seq<PaperView>, k: SortKey)
    ensures
        sort_desc(ps, k).to_multiset() == ps.to_multiset(),
    decreases ps.len(),
{
    broadcast use vstd::seq_lib::group_to_multiset_ensures;

    if ps.len() > 0 {
        let d = ps.drop_last();
        let x = ps.last();
        lemma_sort_desc_permutes(d, k);
        let s = sort_desc(d, k);
        lemma_insert_pos(s, x, k);
        let p = insert_pos(s, x, k);
        assert(s.insert(p, x) =~= s.take(p) + seq![x] + s.skip(p));
        assert(s =~= s.take(p) + s.skip(p));
        vstd::seq_lib::lemma_multiset_commutative(s.take(p) + seq![x], s.skip(p));
        vstd::seq_lib::lemma_multiset_commutative(s.take(p), seq![x]);
        vstd::seq_lib::lemma_multiset_commutative(s.take(p), s.skip(p));
        assert(ps =~= d.push(x));
    }
}

/// The papers of `s` whose key is `v`, in order.
pub open spec fn with_key(s: Seq<PaperView>, k: SortKey, v: int) -> Seq<PaperView>
    decreases s.len(),
{
    if s.len() == 0 {
        Seq::empty()
    } else if key_of(s.last(), k) == v {
        with_key(s.drop_last(), k, v).push(s.last())
    } else {
        with_key(s.drop_last(), k, v)
    }
}

proof fn lemma_with_key_insert(sorted: Seq<PaperView>, x: PaperView, k: SortKey, v: int)
    ensures
        with_key(insert_desc(sorted, x, k), k, v) == if key_of(x, k) == v {
            with_key(sorted, k, v).push(x)
        } else {
            with_key(sorted, k, v)
        },
    decreases sorted.len(),
{
    if sorted.len() == 0 {
        let e = Seq::<PaperView>::empty();
        assert(seq![x].drop_last() =~= e);
        assert(sorted =~= e);
        assert(insert_desc(sorted, x, k) == seq![x]);
        assert(with_key(e, k, v) == e);
        assert(e.push(x) =~= seq![x]);
        assert(with_key(seq![x], k, v) == if key_of(x, k) == v { e.push(x) } else { e });
    } else if key_of(sorted.last(), k) >= key_of(x, k) {
        assert(sorted.push(x).drop_last() =~= sorted);
        assert(insert_desc(sorted, x, k) == sorted.push(x));
        assert(sorted.push(x).last() == x);
        assert(with_key(sorted.push(x), k, v) == if key_of(x, k) == v {
            with_key(sorted, k, v).push(x)
        } else {
            with_key(sorted, k, v)
        });
    } else {
        let d = sorted.drop_last();
        lemma_with_key_insert(d, x, k, v);
        let ins = insert_desc(d, x, k);
        let l = sorted.last();
        assert(ins.push(l).drop_last() =~= ins);
        assert(ins.push(l).last() == l);
        assert(insert_desc(sorted, x, k) == ins.push(l));
        assert(sorted.drop_last() == d);
        if key_of(l, k) == v {
            assert(key_of(x, k) != v);
            assert(with_key(sorted, k, v) == with_key(d, k, v).push(l));
            assert(with_key(ins.push(l), k, v) == with_key(ins, k, v).push(l));
        } else {
            assert(with_key(sorted, k, v) == with_key(d, k, v));
            assert(with_key(ins.push(l), k, v) == with_key(ins, k, v));
        }
    }
}

/// Sorting keeps the order of papers with equal keys: the papers of any one key
/// come out in the order they went in.
pub proof fn lemma_sort_desc_stable(ps: Seq<PaperView>, k: SortKey, v: int)
    ensures
        with_key(sort_desc(ps, k), k, v) == with_key(ps, k, v),
    decreases ps.len(),
{
    if ps.len() > 0 {
        let d = ps.drop_last();
        lemma_sort_desc_stable(d, k, v);
        lemma_with_key_insert(sort_desc(d, k), ps.last(), k, v);
    }
}

/// `ps` sorted by key, largest first, equal keys in their order.
pub fn sort_papers(ps: Vec<Paper>, k: SortKey) -> (r: Vec<Paper>)
    ensures
        papers_view(r@) == sort_desc(papers_view(ps@), k),
{
    let ghost all = papers_view(ps@);
    let mut out: Vec<Paper> = Vec::new();
    let mut rest = ps;
    let n = rest.len();
    let mut i: usize = 0;
    assert(all.take(0) =~= Seq::<PaperView>::empty());
    assert(all.skip(0) =~= all);
    while rest.len() > 0
        invariant
            all.len() == n,
            i + rest.len() == n,
            papers_view(rest@) == all.skip(i as int),
            papers_view(out@) == sort_desc(all.take(i as int), k),
        decreases rest.len(),
    {
        let ghost before_rest = rest@;
        let x = rest.remove(0);
        assert(papers_view(before_rest)[0] == all[i as int]);
        assert(all.take(i + 1).drop_last() =~= all.take(i as int));
        let ghost s = papers_view(out@);
        proof {
            lemma_insert_pos(s, x@, k);
        }
        let mut pos = out.len();
        assert(s.take(out.len() as int) =~= s);
        while pos > 0 && !at_least(&out[pos - 1], &x, k)
            invariant
                pos <= out.len(),
                s == papers_view(out@),
                insert_pos(s, x@, k) == insert_pos(s.take(pos as int), x@, k),
            decreases pos,
        {
            assert(s.take(pos as int).drop_last() =~= s.take(pos - 1));
            pos -= 1;
        }
        proof {
            if pos > 0 {
                assert(s.take(pos as int).last() == s[pos - 1]);
            }
        }
        assert(s.take(out.len() as int) =~= s);
        out.insert(pos, x);
        assert(papers_view(out@) =~= s.insert(pos as int, x@));
        assert(rest@ =~= before_rest.skip(1));
        assert forall|j: int| 0 <= j < rest@.len() implies papers_view(rest@)[j] == all.skip(i + 1)[j] by {
            assert(rest@[j] == before_rest[j + 1]);
            assert(papers_view(before_rest)[j + 1] == all.skip(i as int)[j + 1]);
        }
        assert(papers_view(rest@) =~= all.skip(i + 1));
        i += 1;
    }
    assert(all.take(i as int) =~= all);
    out
}

/// The key of `a` is at least that of `b`.
pub fn at_least(a: &Paper, b: &Paper, k: SortKey) -> (r: bool)
    ensures
        r == (key_of(a@, k) >= key_of(b@, k)),
{
    match k {
        SortKey::Published => !b.published.is_after(&a.published),
        SortKey::Relevance => match (a.relevance_score, b.relevance_score) {
            (Some(x), Some(y)) => x >= y,
            (Some(_), None) => true,
            (None, Some(_)) => false,
            (None, None) => true,
        },
    }
}

/// `ps[i]` is the first paper of `ps` with its identifier.
pub open spec fn first_with_id(ps: Seq<PaperView>, i: int) -> bool {
    forall|j: int| 0 <= j < i ==> (#[trigger] ps[j]).id != ps[i].id
}

/// The papers of `ps` whose identifier has not come before, in order.
pub open spec fn unique_by_id(ps: Seq<PaperView>) -> Seq<PaperView>
    decreases ps.len(),
{
    if ps.len() == 0 {
        Seq::empty()
    } else if first_with_id(ps, ps.len() - 1) {
        unique_by_id(ps.drop_last()).push(ps.last())
    } else {
        unique_by_id(ps.drop_last())
    }
}

/// Every paper that `unique_by_id` keeps is one of the given papers.
pub proof fn lemma_unique_by_id_from(ps: Seq<PaperView>)
    ensures
        forall|k: int|
            0 <= k < unique_by_id(ps).len() ==> exists|j: int| 0 <= j < ps.len() && ps[j] == #[trigger] unique_by_id(ps)[k],
    decreases ps.len(),
{
    if ps.len() > 0 {
        let d = ps.drop_last();
        lemma_unique_by_id_from(d);
        let u = unique_by_id(ps);
        assert forall|k: int| 0 <= k < u.len() implies exists|j: int| 0 <= j < ps.len() && ps[j] == #[trigger] u[k] by {
            if k < unique_by_id(d).len() {
                let j = choose|j: int| 0 <= j < d.len() && d[j] == unique_by_id(d)[k];
                assert(ps[j] == d[j]);
            } else {
                assert(ps[ps.len() - 1] == u[k]);
            }
        }
    }
}

/// No two papers that `unique_by_id` keeps have the same identifier.
pub proof fn lemma_unique_by_id_distinct(ps: Seq<PaperView>)
    ensures
        forall|i: int, j: int|
            0 <= i < j < unique_by_id(ps).len() ==> (#[trigger] unique_by_id(ps)[i]).id != (
            #[trigger] unique_by_id(ps)[j]).id,
    decreases ps.len(),
{
    if ps.len() > 0 {
        let d = ps.drop_last();
        lemma_unique_by_id_distinct(d);
        lemma_unique_by_id_from(d);
        let u = unique_by_id(ps);
        let ud = unique_by_id(d);
        if first_with_id(ps, ps.len() - 1) {
            assert forall|i: int, j: int| 0 <= i < j < u.len() implies (#[trigger] u[i]).id != (#[trigger] u[j]).id by {
                if j == u.len() - 1 {
                    let m = choose|m: int| 0 <= m < d.len() && d[m] == ud[i];
                    assert(ps[m] == d[m]);
                    assert(ps[m].id != ps[ps.len() - 1].id);
                } else {
                    assert(u[i] == ud[i] && u[j] == ud[j]);
                }
            }
        }
    }
}

/// Every identifier of the given papers is kept by `unique_by_id`.
pub proof fn lemma_unique_by_id_covers(ps: Seq<PaperView>)
    ensures
        forall|j: int|
            0 <= j < ps.len() ==> exists|k: int| 0 <= k < unique_by_id(ps).len() && (#[trigger] ps[j]).id == unique_by_id(ps)[k].id,
    decreases ps.len(),
{
    if ps.len() > 0 {
        let d = ps.drop_last();
        lemma_unique_by_id_covers(d);
        let u = unique_by_id(ps);
        let ud = unique_by_id(d);
        assert forall|j: int| 0 <= j < ps.len() implies exists|k: int| 0 <= k < u.len() && (#[trigger] ps[j]).id == u[k].id by {
            if j < d.len() {
                assert(ps[j] == d[j]);
                let k = choose|k: int| 0 <= k < ud.len() && d[j].id == ud[k].id;
                assert(u[k] == ud[k]);
            } else if first_with_id(ps, ps.len() - 1) {
                assert(u[u.len() - 1] == ps[j]);
            } else {
                let m = choose|m: int| 0 <= m < ps.len() - 1 && #[trigger] ps[m].id == ps[ps.len() - 1].id;
                assert(ps[m] == d[m]);
                let k = choose|k: int| 0 <= k < ud.len() && d[m].id == ud[k].id;
                assert(u[k] == ud[k]);
            }
        }
    }
}

/// The lists, one after the other.
pub open spec fn concat(batches: Seq<Seq<PaperView>>) -> Seq<PaperView>
    decreases batches.len(),
{
    if batches.len() == 0 {
        Seq::empty()
    } else {
        concat(batches.drop_last()) + batches.last()
    }
}

/// Some paper of `ps` has identifier `id`.
pub open spec fn id_in(ps: Seq<Paper>, id: Seq<char>) -> bool {
    exists|j: int| 0 <= j < ps.len() && (#[trigger] ps[j])@.id == id
}

/// Some paper of `ps` before index `k` has identifier `id`.
pub open spec fn id_before(ps: Seq<PaperView>, k: int, id: Seq<char>) -> bool {
    exists|j: int| 0 <= j < k && (#[trigger] ps[j]).id == id
}

/// `id` is the identifier of one of `ps`.
fn has_id(ps: &Vec<Paper>, id: &String) -> (r: bool)
    ensures
        r == id_in(ps@, id@),
{
    let mut i: usize = 0;
    while i < ps.len()
        invariant
            i <= ps.len(),
            forall|j: int| 0 <= j < i ==> (#[trigger] ps@[j])@.id != id@,
        decreases ps.len() - i,
    {
        if ps[i].id == *id {
            return true;
        }
        i += 1;
    }
    false
}

/// The papers of all lists, in order, each identifier kept at its first paper.
pub fn merge_unique(batches: Vec<Vec<Paper>>) -> (r: Vec<Paper>)
    ensures
        papers_view(r@) == unique_by_id(concat(batches@.map_values(|b: Vec<Paper>| papers_view(b@)))),
{
    let ghost bs = batches@.map_values(|b: Vec<Paper>| papers_view(b@));
    let mut all: Vec<Paper> = Vec::new();
    let mut rest = batches;
    let n = rest.len();
    let mut i: usize = 0;
    assert(bs.take(0) =~= Seq::<Seq<PaperView>>::empty());
    while rest.len() > 0
        invariant
            bs.len() == n,
            i + rest.len() == n,
            forall|j: int| 0 <= j < rest@.len() ==> papers_view((#[trigger] rest@[j])@) == bs[i + j],
            papers_view(all@) == concat(bs.take(i as int)),
        decreases rest.len(),
    {
        let ghost before_rest = rest@;
        let mut b = rest.remove(0);
        assert(papers_view(b@) == bs[i as int]);
        let ghost a0 = papers_view(all@);
        all.append(&mut b);
        assert(papers_view(all@) =~= a0 + bs[i as int]);
        assert(bs.take(i + 1).drop_last() =~= bs.take(i as int));
        assert forall|j: int| 0 <= j < rest@.len() implies papers_view((#[trigger] rest@[j])@) == bs[i + 1 + j] by {
            assert(rest@[j] == before_rest[j + 1]);
        }
        i += 1;
    }
    assert(bs.take(i as int) =~= bs);
    let ghost flat = papers_view(all@);
    let mut out: Vec<Paper> = Vec::new();
    let mut seen: Vec<Paper> = Vec::new();
    let mut rest = all;
    let m = rest.len();
    let mut k: usize = 0;
    assert(flat.take(0) =~= Seq::<PaperView>::empty());
    assert(flat.skip(0) =~= flat);
    while rest.len() > 0
        invariant
            flat.len() == m,
            k + rest.len() == m,
            papers_view(rest@) == flat.skip(k as int),
            papers_view(out@) == unique_by_id(flat.take(k as int)),
            forall|j: int| 0 <= j < k ==> id_in(out@, #[trigger] flat[j].id),
            forall|q: int| 0 <= q < out@.len() ==> id_before(flat, k as int, (#[trigger] out@[q])@.id),
        decreases rest.len(),
    {
        let ghost before_rest = rest@;
        let x = rest.remove(0);
        assert(papers_view(before_rest)[0] == flat[k as int]);
        let ghost pre = flat.take(k + 1);
        assert(pre.drop_last() =~= flat.take(k as int));
        assert(pre.last() == flat[k as int]);
        let dup = has_id(&out, &x.id);
        proof {
            if dup {
                let q = choose|q: int| 0 <= q < out@.len() && (#[trigger] out@[q])@.id == x@.id;
                assert(id_before(flat, k as int, out@[q]@.id));
                let j = choose|j: int| 0 <= j < k && (#[trigger] flat[j]).id == out@[q]@.id;
                assert(pre[j] == flat[j]);
                assert(!first_with_id(pre, pre.len() - 1));
            } else {
                assert forall|j: int| 0 <= j < pre.len() - 1 implies (#[trigger] pre[j]).id != pre[pre.len() - 1].id by {
                    assert(pre[j] == flat[j]);
                    assert(id_in(out@, flat[j].id));
                }
            }
        }
        let ghost out0 = out@;
        if !dup {
            let ghost before = papers_view(out@);
            out.push(x);
            assert(papers_view(out@) =~= before.push(flat[k as int]));
            assert(out@[out@.len() - 1]@.id == flat[k as int].id);
        }
        proof {
            assert forall|j: int| 0 <= j < k + 1 implies id_in(out@, #[trigger] flat[j].id) by {
                if j < k {
                    assert(id_in(out0, flat[j].id));
                    let q = choose|q: int| 0 <= q < out0.len() && (#[trigger] out0[q])@.id == flat[j].id;
                    assert(out@[q] == out0[q]);
                } else if dup {
                    assert(id_in(out0, x@.id));
                    let q = choose|q: int| 0 <= q < out0.len() && (#[trigger] out0[q])@.id == x@.id;
                    assert(out@[q] == out0[q]);
                } else {
                    assert(out@[out@.len() - 1]@.id == flat[j].id);
                }
            }
            assert forall|q: int| 0 <= q < out@.len() implies id_before(flat, k + 1, (#[trigger] out@[q])@.id) by {
                if q < out0.len() {
                    assert(out@[q] == out0[q]);
                    assert(id_before(flat, k as int, out0[q]@.id));
                    let j = choose|j: int| 0 <= j < k && (#[trigger] flat[j]).id == out0[q]@.id;
                    assert(flat[j].id == out@[q]@.id);
                } else {
                    assert(flat[k as int].id == out@[q]@.id);
                }
            }
        }
        assert(rest@ =~= before_rest.skip(1));
        assert forall|j: int| 0 <= j < rest@.len() implies papers_view(rest@)[j] == flat.skip(k + 1)[j] by {
            assert(rest@[j] == before_rest[j + 1]);
            assert(papers_view(before_rest)[j + 1] == flat.skip(k as int)[j + 1]);
        }
        assert(papers_view(rest@) =~= flat.skip(k + 1));
        k += 1;
    }
    assert(flat.take(k as int) =~= flat);
    out
}

} // verus!
