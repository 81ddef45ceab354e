//! Choosing the papers that match the user's preferences, and scoring them.

use crate::paper::{Paper, PaperView, PreferencesView, UserPreferences, papers_view, strs};
use crate::text::{occurs_at, chars_of, join_strings, contains, contains_chars, join, lowercase_chars, push_str, spec_to_lowercase, to_lowercase};
use vstd::prelude::*;

verus! {

/// The lower-cased text searched for keywords: the title, a space, the abstract.
pub open spec fn search_text(p: PaperView) -> Seq<char> {
    spec_to_lowercase(p.title + seq![' '] + p.abstract_text)
}

/// One of the paper's categories is excluded by the preferences (exact match).
pub open spec fn excluded(p: PaperView, prefs: PreferencesView) -> bool {
    exists|i: int, j: int|
        0 <= i < p.categories.len() && 0 <= j < prefs.exclude_categories.len()
            && #[trigger] p.categories[i] == #[trigger] prefs.exclude_categories[j]
}

/// Some followed category occurs, case-insensitively, inside one of the paper's categories.
pub open spec fn category_hit(p: PaperView, prefs: PreferencesView) -> bool {
    exists|i: int, j: int|
        0 <= i < p.categories.len() && 0 <= j < prefs.categories.len() && contains(
            spec_to_lowercase(#[trigger] p.categories[i]),
            spec_to_lowercase(#[trigger] prefs.categories[j]),
        )
}

/// Some keyword occurs, case-insensitively, in the title or the abstract.
pub open spec fn keyword_hit(p: PaperView, prefs: PreferencesView) -> bool {
    exists|j: int|
        0 <= j < prefs.keywords.len() && contains(
            search_text(p),
            spec_to_lowercase(#[trigger] prefs.keywords[j]),
        )
}

/// The paper passes the three filters: no excluded category; a followed category,
/// when any is followed; a keyword, when any is given.
pub open spec fn matches(p: PaperView, prefs: PreferencesView) -> bool {
    &&& !excluded(p, prefs)
    &&& (prefs.categories.len() == 0 || category_hit(p, prefs))
    &&& (prefs.keywords.len() == 0 || keyword_hit(p, prefs))
}

/// The papers that match, in their order.
pub open spec fn kept(ps: Seq<PaperView>, prefs: PreferencesView) -> Seq<PaperView>
    decreases ps.len(),
{
    if ps.len() == 0 {
        Seq::empty()
    } else if matches(ps.last(), prefs) {
        kept(ps.drop_last(), prefs).push(ps.last())
    } else {
        kept(ps.drop_last(), prefs)
    }
}

/// How many of `xs` (counted with repetition) are in `set`.
pub open spec fn count_in(xs: Seq<Seq<char>>, set: Seq<Seq<char>>) -> nat
    decreases xs.len(),
{
    if xs.len() == 0 {
        0
    } else {
        count_in(xs.drop_last(), set) + if set.contains(xs.last()) {
            1nat
        } else {
            0nat
        }
    }
}

/// How many of the keywords (counted with repetition) occur, lower-cased, in `text`.
pub open spec fn count_hits(keywords: Seq<Seq<char>>, text: Seq<char>) -> nat
    decreases keywords.len(),
{
    if keywords.len() == 0 {
        0
    } else {
        count_hits(keywords.drop_last(), text) + if contains(
            text,
            spec_to_lowercase(keywords.last()),
        ) {
            1nat
        } else {
            0nat
        }
    }
}

/// The institutions whose authors earn a bonus.
pub open spec fn institutions() -> Seq<Seq<char>> {
    seq![
        "openai"@,
        "deepmind"@,
        "google"@,
        "meta"@,
        "microsoft"@,
        "stanford"@,
        "mit"@,
    ]
}

/// 2 when the lower-cased author list, joined by spaces, names a top institution.
pub open spec fn institution_bonus(authors: Seq<Seq<char>>) -> nat {
    let text = spec_to_lowercase(join(authors, " "@));
    if exists|k: int| 0 <= k < institutions().len() && contains(text, #[trigger] institutions()[k]) {
        2
    } else {
        0
    }
}

/// 1 when the lower-cased title contains `survey` or `review`.
pub open spec fn survey_bonus(title: Seq<char>) -> nat {
    let t = spec_to_lowercase(title);
    if contains(t, "survey"@) || contains(t, "review"@) {
        1
    } else {
        0
    }
}

/// The relevance score: 2 per category of the paper that the user follows,
/// 1 per keyword found, 2 for a top institution, 1 for a survey or review.
pub open spec fn score(p: PaperView, prefs: PreferencesView) -> nat {
    2 * count_in(p.categories, prefs.categories) + count_hits(prefs.keywords, search_text(p))
        + institution_bonus(p.authors) + survey_bonus(p.title)
}

/// The paper with its relevance score set.
pub open spec fn with_score(p: PaperView, s: int) -> PaperView {
    PaperView { relevance_score: Some(s as i64), ..p }
}

/// The matching papers, each with its score.
pub open spec fn scored(ps: Seq<PaperView>, prefs: PreferencesView) -> Seq<PaperView> {
    kept(ps, prefs).map_values(|p: PaperView| with_score(p, score(p, prefs) as int))
}

/// Sizes under which a score fits in `i64`; no list in memory comes near them.
pub open spec fn scorable(p: PaperView, prefs: PreferencesView) -> bool {
    p.categories.len() + prefs.keywords.len() < 0x1000_0000_0000_0000
}

pub proof fn lemma_count_in_bound(xs: Seq<Seq<char>>, set: Seq<Seq<char>>)
    ensures
        count_in(xs, set) <= xs.len(),
    decreases xs.len(),
{
    if xs.len() > 0 {
        lemma_count_in_bound(xs.drop_last(), set);
    }
}

pub proof fn lemma_count_hits_bound(keywords: Seq<Seq<char>>, text: Seq<char>)
    ensures
        count_hits(keywords, text) <= keywords.len(),
    decreases keywords.len(),
{
    if keywords.len() > 0 {
        lemma_count_hits_bound(keywords.drop_last(), text);
    }
}

/// Every kept paper is one of the given papers.
pub proof fn lemma_kept_from(ps: Seq<PaperView>, prefs: PreferencesView)
    ensures
        forall|k: int| 0 <= k < kept(ps, prefs).len() ==> ps.contains(#[trigger] kept(ps, prefs)[k]),
        kept(ps, prefs).len() <= ps.len(),
    decreases ps.len(),
{
    if ps.len() > 0 {
        lemma_kept_from(ps.drop_last(), prefs);
        assert forall|k: int| 0 <= k < kept(ps, prefs).len() implies ps.contains(
            #[trigger] kept(ps, prefs)[k],
        ) by {
            let q = ps.drop_last();
            if k < kept(q, prefs).len() {
                let x = kept(q, prefs)[k];
                assert(q.contains(x));
                let m = choose|m: int| 0 <= m < q.len() && q[m] == x;
                assert(ps[m] == x);
            } else {
                assert(ps[ps.len() - 1] == kept(ps, prefs)[k]);
            }
        }
    }
}

/// Every paper the filter keeps passes it.
pub proof fn lemma_kept_match(ps: Seq<PaperView>, prefs: PreferencesView)
    ensures
        forall|k: int| 0 <= k < kept(ps, prefs).len() ==> matches(#[trigger] kept(ps, prefs)[k], prefs),
    decreases ps.len(),
{
    if ps.len() > 0 {
        let d = ps.drop_last();
        lemma_kept_match(d, prefs);
        assert forall|k: int| 0 <= k < kept(ps, prefs).len() implies matches(#[trigger] kept(ps, prefs)[k], prefs) by {
            if k < kept(d, prefs).len() {
                assert(kept(ps, prefs)[k] == kept(d, prefs)[k]);
            }
        }
    }
}

/// Papers that all pass the filter are all kept, in their order.
pub proof fn lemma_kept_all(ps: Seq<PaperView>, prefs: PreferencesView)
    requires
        forall|k: int| 0 <= k < ps.len() ==> matches(#[trigger] ps[k], prefs),
    ensures
        kept(ps, prefs) == ps,
    decreases ps.len(),
{
    if ps.len() > 0 {
        let d = ps.drop_last();
        assert forall|k: int| 0 <= k < d.len() implies matches(#[trigger] d[k], prefs) by {
            assert(d[k] == ps[k]);
        }
        lemma_kept_all(d, prefs);
        assert(matches(ps[ps.len() - 1], prefs));
        assert(d.push(ps.last()) =~= ps);
    }
}

/// Filtering what was filtered changes nothing.
pub proof fn lemma_kept_idempotent(ps: Seq<PaperView>, prefs: PreferencesView)
    ensures
        kept(kept(ps, prefs), prefs) == kept(ps, prefs),
{
    lemma_kept_match(ps, prefs);
    lemma_kept_all(kept(ps, prefs), prefs);
}

/// Without excluded categories, followed categories or keywords, every paper is kept.
pub proof fn lemma_no_filters_keep_all(ps: Seq<PaperView>, prefs: PreferencesView)
    requires
        prefs.exclude_categories.len() == 0,
        prefs.categories.len() == 0,
        prefs.keywords.len() == 0,
    ensures
        kept(ps, prefs) == ps,
{
    assert forall|k: int| 0 <= k < ps.len() implies matches(#[trigger] ps[k], prefs) by {
        assert(!excluded(ps[k], prefs));
    }
    lemma_kept_all(ps, prefs);
}

/// A paper with an excluded category is never kept, whatever else it matches.
pub proof fn lemma_excluded_dropped(ps: Seq<PaperView>, prefs: PreferencesView)
    ensures
        forall|k: int| 0 <= k < kept(ps, prefs).len() ==> !excluded(#[trigger] kept(ps, prefs)[k], prefs),
{
    lemma_kept_match(ps, prefs);
}

/// The institution bonus reads the whole author list, every author at any
/// position: two author lists that join to the same text earn the same bonus,
/// however the names are split between authors (for instance
/// `["Bob OpenAI"]` and `["Bob", "OpenAI"]`).
pub proof fn lemma_institution_bonus_reads_all_authors(a: Seq<Seq<char>>, b: Seq<Seq<char>>)
    requires
        join(a, " "@) == join(b, " "@),
    ensures
        institution_bonus(a) == institution_bonus(b),
{
}

proof fn lemma_author_occurs(authors: Seq<Seq<char>>, i: int) -> (k: int)
    requires
        0 <= i < authors.len(),
    ensures
        occurs_at(join(authors, " "@), k, authors[i]),
    decreases authors.len(),
{
    let n = authors.len();
    let d = authors.drop_last();
    if n == 1 {
        assert(join(authors, " "@) == authors[0]);
        assert(join(authors, " "@).subrange(0, authors[0].len() as int) =~= authors[0]);
        0
    } else if i == n - 1 {
        let j = join(authors, " "@);
        let pre = join(d, " "@) + " "@;
        assert(j == pre + authors.last());
        assert(j.subrange(pre.len() as int, (pre.len() + authors[i].len()) as int) =~= authors[i]);
        pre.len() as int
    } else {
        let k = lemma_author_occurs(d, i);
        assert(d[i] == authors[i]);
        let j = join(authors, " "@);
        assert(j == join(d, " "@) + " "@ + authors.last());
        assert(j.subrange(k, k + authors[i].len()) =~= join(d, " "@).subrange(k, k + d[i].len()));
        k
    }
}

/// Every author's name is part of the author text the bonus searches: the names
/// joined by spaces hold each name, wherever it stands in the list.
pub proof fn lemma_author_text_holds_each_author(authors: Seq<Seq<char>>, i: int)
    requires
        0 <= i < authors.len(),
    ensures
        contains(join(authors, " "@), authors[i]),
{
    let k = lemma_author_occurs(authors, i);
    crate::text::lemma_find_from_found(join(authors, " "@), authors[i], 0);
}

/// The score of a paper depends on its authors only through the joined author
/// text: splitting or regrouping names between authors changes nothing.
pub proof fn lemma_score_reads_all_authors(p: PaperView, q: PaperView, prefs: PreferencesView)
    requires
        q == (PaperView { authors: q.authors, ..p }),
        join(p.authors, " "@) == join(q.authors, " "@),
    ensures
        score(p, prefs) == score(q, prefs),
{
    lemma_institution_bonus_reads_all_authors(p.authors, q.authors);
}

/// A paper with a category that any entry of the excluded categories names, at
/// any position of either list, does not pass the filter.
pub proof fn lemma_excluded_category_fails(p: PaperView, prefs: PreferencesView, i: int, j: int)
    requires
        0 <= i < p.categories.len(),
        0 <= j < prefs.exclude_categories.len(),
        p.categories[i] == prefs.exclude_categories[j],
    ensures
        !matches(p, prefs),
{
    assert(excluded(p, prefs));
}

/// No kept paper has a category that the excluded categories name, wherever it
/// stands in either list.
pub proof fn lemma_kept_avoid_excluded(ps: Seq<PaperView>, prefs: PreferencesView)
    ensures
        forall|k: int, i: int, j: int|
            0 <= k < kept(ps, prefs).len() && 0 <= i < kept(ps, prefs)[k].categories.len() && 0 <= j
                < prefs.exclude_categories.len() ==> (#[trigger] kept(ps, prefs)[k].categories[i]) != (
            #[trigger] prefs.exclude_categories[j]),
{
    lemma_kept_match(ps, prefs);
    assert forall|k: int, i: int, j: int|
        0 <= k < kept(ps, prefs).len() && 0 <= i < kept(ps, prefs)[k].categories.len() && 0 <= j
            < prefs.exclude_categories.len() implies (#[trigger] kept(ps, prefs)[k].categories[i]) != (
        #[trigger] prefs.exclude_categories[j]) by {
        if kept(ps, prefs)[k].categories[i] == prefs.exclude_categories[j] {
            lemma_excluded_category_fails(kept(ps, prefs)[k], prefs, i, j);
        }
    }
}

/// Whether a paper is excluded does not depend on the order of the excluded
/// categories: any reordering (any list with the same entries) gives the same
/// answer.
pub proof fn lemma_excluded_order_free(p: PaperView, a: PreferencesView, b: PreferencesView)
    requires
        b == (PreferencesView { exclude_categories: b.exclude_categories, ..a }),
        forall|x: Seq<char>| a.exclude_categories.contains(x) <==> b.exclude_categories.contains(x),
    ensures
        matches(p, a) == matches(p, b),
{
    if excluded(p, a) {
        let (i, j) = choose|i: int, j: int|
            0 <= i < p.categories.len() && 0 <= j < a.exclude_categories.len() && #[trigger] p.categories[i]
                == #[trigger] a.exclude_categories[j];
        assert(a.exclude_categories.contains(a.exclude_categories[j]));
        let m = choose|m: int| 0 <= m < b.exclude_categories.len() && b.exclude_categories[m] == a.exclude_categories[j];
        assert(p.categories[i] == b.exclude_categories[m]);
    }
    if excluded(p, b) {
        let (i, j) = choose|i: int, j: int|
            0 <= i < p.categories.len() && 0 <= j < b.exclude_categories.len() && #[trigger] p.categories[i]
                == #[trigger] b.exclude_categories[j];
        assert(b.exclude_categories.contains(b.exclude_categories[j]));
        let m = choose|m: int| 0 <= m < a.exclude_categories.len() && a.exclude_categories[m] == b.exclude_categories[j];
        assert(p.categories[i] == a.exclude_categories[m]);
    }
}

/// A paper with no excluded category passes the filter when one of its
/// categories contains, case-insensitively, the followed category at any
/// position of that list (or none is followed), and the title or abstract holds,
/// case-insensitively, the keyword at any position of that list (or none is
/// given).
pub proof fn lemma_hits_at_any_position_pass(p: PaperView, prefs: PreferencesView, i: int, j: int, k: int)
    requires
        forall|a: int, b: int|
            0 <= a < p.categories.len() && 0 <= b < prefs.exclude_categories.len() ==> #[trigger] p.categories[a]
                != #[trigger] prefs.exclude_categories[b],
        prefs.categories.len() == 0 || (0 <= i < p.categories.len() && 0 <= j < prefs.categories.len() && contains(
            spec_to_lowercase(p.categories[i]),
            spec_to_lowercase(prefs.categories[j]),
        )),
        prefs.keywords.len() == 0 || (0 <= k < prefs.keywords.len() && contains(
            spec_to_lowercase(p.title + seq![' '] + p.abstract_text),
            spec_to_lowercase(prefs.keywords[k]),
        )),
    ensures
        matches(p, prefs),
{
}

/// The preferences with one more keyword.
pub open spec fn with_keyword(prefs: PreferencesView, k: Seq<char>) -> PreferencesView {
    PreferencesView { keywords: prefs.keywords.push(k), ..prefs }
}

/// One point when `k` occurs, lower-cased, in the paper's searched text.
pub open spec fn keyword_point(p: PaperView, k: Seq<char>) -> nat {
    if contains(search_text(p), spec_to_lowercase(k)) {
        1
    } else {
        0
    }
}

/// Following one more keyword adds one point exactly when the keyword occurs,
/// lower-cased, in the paper's lower-cased title and abstract; nothing else
/// changes the score.
pub proof fn lemma_score_extra_keyword(p: PaperView, prefs: PreferencesView, k: Seq<char>)
    ensures
        score(p, with_keyword(prefs, k)) == score(p, prefs) + keyword_point(p, k),
{
    let ks = prefs.keywords.push(k);
    assert(ks.drop_last() =~= prefs.keywords);
    assert(ks.last() == k);
}

/// A score is at most two per category of the paper, one per keyword, and three
/// for the bonuses.
pub proof fn lemma_score_bound(p: PaperView, prefs: PreferencesView)
    ensures
        score(p, prefs) <= 2 * p.categories.len() + prefs.keywords.len() + 3,
{
    lemma_count_in_bound(p.categories, prefs.categories);
    lemma_count_hits_bound(prefs.keywords, search_text(p));
}

/// Scoring keeps exactly the papers the filter keeps, in their order, each with
/// its score and otherwise unchanged.
pub proof fn lemma_scored_is_kept(ps: Seq<PaperView>, prefs: PreferencesView)
    ensures
        scored(ps, prefs).len() == kept(ps, prefs).len(),
        forall|i: int|
            0 <= i < scored(ps, prefs).len() ==> #[trigger] scored(ps, prefs)[i] == with_score(
                kept(ps, prefs)[i],
                score(kept(ps, prefs)[i], prefs) as int,
            ),
{
}

/// `list` holds a string equal to `x`.
pub fn contains_string(list: &Vec<String>, x: &String) -> (r: bool)
    ensures
        r == strs(list@).contains(x@),
{
    let mut i: usize = 0;
    while i < list.len()
        invariant
            i <= list.len(),
            forall|j: int| 0 <= j < i ==> list@[j]@ != x@,
        decreases list.len() - i,
    {
        if list[i] == *x {
            assert(strs(list@)[i as int] == x@);
            return true;
        }
        i += 1;
    }
    assert(!strs(list@).contains(x@)) by {
        if strs(list@).contains(x@) {
            let j = choose|j: int| 0 <= j < strs(list@).len() && strs(list@)[j] == x@;
            assert(list@[j]@ == x@);
        }
    }
    false
}

/// The characters of `s`, lower-cased.
pub fn lower(s: &String) -> (r: Vec<char>)
    ensures
        r@ == spec_to_lowercase(s@),
{
    let l = to_lowercase(s.as_str());
    chars_of(l.as_str())
}

/// The lower-cased title, a space and the abstract.
pub fn search_text_of(paper: &Paper) -> (r: Vec<char>)
    ensures
        r@ == search_text(paper@),
{
    let mut t = chars_of(paper.title.as_str());
    t.push(' ');
    push_str(&mut t, paper.abstract_text.as_str());
    assert(t@ =~= paper.title@ + seq![' '] + paper.abstract_text@);
    lowercase_chars(&t)
}

/// The user's preferences as filters and scoring weights.
pub struct Filter;

impl Filter {
    fn is_excluded(paper: &Paper, prefs: &UserPreferences) -> (r: bool)
        ensures
            r == excluded(paper@, prefs@),
    {
        let mut i: usize = 0;
        while i < paper.categories.len()
            invariant
                i <= paper.categories.len(),
                forall|a: int, b: int|
                    0 <= a < i && 0 <= b < prefs.exclude_categories.len() ==> paper@.categories[a]
                        != prefs@.exclude_categories[b],
            decreases paper.categories.len() - i,
        {
            if contains_string(&prefs.exclude_categories, &paper.categories[i]) {
                let ghost j = choose|j: int|
                    0 <= j < strs(prefs.exclude_categories@).len() && strs(
                        prefs.exclude_categories@,
                    )[j] == paper.categories@[i as int]@;
                assert(paper@.categories[i as int] == prefs@.exclude_categories[j]);
                return true;
            }
            proof {
                assert forall|b: int| 0 <= b < prefs.exclude_categories.len() implies paper@.categories[i as int]
                    != prefs@.exclude_categories[b] by {
                    if paper@.categories[i as int] == prefs@.exclude_categories[b] {
                        assert(strs(prefs.exclude_categories@)[b] == paper.categories@[i as int]@);
                    }
                }
            }
            i += 1;
        }
        false
    }

    fn has_category(paper: &Paper, prefs: &UserPreferences) -> (r: bool)
        ensures
            r == category_hit(paper@, prefs@),
    {
        let mut j: usize = 0;
        while j < prefs.categories.len()
            invariant
                j <= prefs.categories.len(),
                forall|a: int, b: int|
                    0 <= a < paper.categories.len() && 0 <= b < j ==> !contains(
                        spec_to_lowercase(paper@.categories[a]),
                        spec_to_lowercase(prefs@.categories[b]),
                    ),
            decreases prefs.categories.len() - j,
        {
            let c = lower(&prefs.categories[j]);
            let mut i: usize = 0;
            while i < paper.categories.len()
                invariant
                    j < prefs.categories.len(),
                    i <= paper.categories.len(),
                    c@ == spec_to_lowercase(prefs@.categories[j as int]),
                    forall|a: int, b: int|
                        0 <= a < paper.categories.len() && 0 <= b < j ==> !contains(
                            spec_to_lowercase(paper@.categories[a]),
                            spec_to_lowercase(prefs@.categories[b]),
                        ),
                    forall|a: int|
                        0 <= a < i ==> !contains(
                            spec_to_lowercase(paper@.categories[a]),
                            spec_to_lowercase(prefs@.categories[j as int]),
                        ),
                decreases paper.categories.len() - i,
            {
                let pc = lower(&paper.categories[i]);
                if contains_chars(&pc, &c) {
                    assert(contains(
                        spec_to_lowercase(paper@.categories[i as int]),
                        spec_to_lowercase(prefs@.categories[j as int]),
                    ));
                    return true;
                }
                i += 1;
            }
            j += 1;
        }
        false
    }

    fn has_keyword(text: &Vec<char>, paper: &Paper, prefs: &UserPreferences) -> (r: bool)
        requires
            text@ == search_text(paper@),
        ensures
            r == keyword_hit(paper@, prefs@),
    {
        let mut j: usize = 0;
        while j < prefs.keywords.len()
            invariant
                j <= prefs.keywords.len(),
                text@ == search_text(paper@),
                forall|b: int|
                    0 <= b < j ==> !contains(search_text(paper@), spec_to_lowercase(prefs@.keywords[b])),
            decreases prefs.keywords.len() - j,
        {
            let k = lower(&prefs.keywords[j]);
            if contains_chars(text, &k) {
                assert(contains(search_text(paper@), spec_to_lowercase(prefs@.keywords[j as int])));
                return true;
            }
            j += 1;
        }
        false
    }

    /// The paper passes the user's filters.
    pub fn matches_preferences(paper: &Paper, prefs: &UserPreferences) -> (r: bool)
        ensures
            r == matches(paper@, prefs@),
    {
        if Self::is_excluded(paper, prefs) {
            return false;
        }
        if prefs.categories.len() != 0 {
            if !Self::has_category(paper, prefs) {
                return false;
            }
        }
        if prefs.keywords.len() != 0 {
            let text = search_text_of(paper);
            if !Self::has_keyword(&text, paper, prefs) {
                return false;
            }
        }
        true
    }

    fn institution_names() -> (v: Vec<Vec<char>>)
        ensures
            crate::text::views(v@) == institutions(),
    {
        let mut v: Vec<Vec<char>> = Vec::new();
        v.push(chars_of("openai"));
        v.push(chars_of("deepmind"));
        v.push(chars_of("google"));
        v.push(chars_of("meta"));
        v.push(chars_of("microsoft"));
        v.push(chars_of("stanford"));
        v.push(chars_of("mit"));
        assert(crate::text::views(v@) =~= institutions());
        v
    }

    /// The relevance score of a paper under the user's preferences, in whole points.
    pub fn score_paper(paper: &Paper, prefs: &UserPreferences) -> (s: i64)
        requires
            scorable(paper@, prefs@),
        ensures
            s == score(paper@, prefs@),
    {
        let ghost cats = paper@.categories;
        let mut cat_count: u64 = 0;
        let mut i: usize = 0;
        while i < paper.categories.len()
            invariant
                i <= paper.categories.len(),
                cats == paper@.categories,
                cat_count == count_in(cats.take(i as int), prefs@.categories),
                cat_count <= i,
            decreases paper.categories.len() - i,
        {
            assert(cats.take(i + 1).drop_last() =~= cats.take(i as int));
            if contains_string(&prefs.categories, &paper.categories[i]) {
                cat_count += 1;
            }
            i += 1;
        }
        assert(cats.take(i as int) =~= cats);
        let text = search_text_of(paper);
        let ghost kws = prefs@.keywords;
        let mut kw_count: u64 = 0;
        let mut j: usize = 0;
        while j < prefs.keywords.len()
            invariant
                j <= prefs.keywords.len(),
                kws == prefs@.keywords,
                text@ == search_text(paper@),
                kw_count == count_hits(kws.take(j as int), text@),
                kw_count <= j,
            decreases prefs.keywords.len() - j,
        {
            assert(kws.take(j + 1).drop_last() =~= kws.take(j as int));
            let k = lower(&prefs.keywords[j]);
            if contains_chars(&text, &k) {
                kw_count += 1;
            }
            j += 1;
        }
        assert(kws.take(j as int) =~= kws);
        let authors = join_strings(&paper.authors, " ");
        let author_text = lower(&authors);
        let names = Self::institution_names();
        let mut bonus: u64 = 0;
        let mut k: usize = 0;
        while k < names.len() && bonus == 0
            invariant
                k <= names.len(),
                crate::text::views(names@) == institutions(),
                author_text@ == spec_to_lowercase(join(paper@.authors, " "@)),
                bonus == 0 || bonus == 2,
                bonus == 0 ==> forall|m: int| 0 <= m < k ==> !contains(author_text@, #[trigger] institutions()[m]),
                bonus == 2 ==> exists|m: int| 0 <= m < institutions().len() && contains(author_text@, #[trigger] institutions()[m]),
            decreases names.len() - k,
        {
            if contains_chars(&author_text, &names[k]) {
                assert(contains(author_text@, institutions()[k as int]));
                bonus = 2;
            }
            k += 1;
        }
        proof {
            assert(strs(paper.authors@) == paper@.authors);
        }
        let title = lower(&paper.title);
        let survey = contains_chars(&title, &chars_of("survey")) || contains_chars(&title, &chars_of("review"));
        let extra: u64 = if survey {
            1
        } else {
            0
        };
        proof {
            lemma_count_in_bound(cats, prefs@.categories);
            lemma_count_hits_bound(kws, text@);
        }
        assert(bonus == institution_bonus(paper@.authors));
        assert(extra == survey_bonus(paper@.title));
        (2 * cat_count + kw_count + bonus + extra) as i64
    }

    /// The papers that pass the user's filters, each with its relevance score, in their order.
    pub fn filter_and_score(papers: Vec<Paper>, prefs: &UserPreferences) -> (r: Vec<Paper>)
        requires
            forall|k: int| 0 <= k < papers@.len() ==> scorable(#[trigger] papers@[k]@, prefs@),
        ensures
            papers_view(r@) == scored(papers_view(papers@), prefs@),
    {
        let ghost all = papers_view(papers@);
        let filtered = Self::filter_papers(papers, prefs);
        let ghost ks = kept(all, prefs@);
        proof {
            lemma_kept_from(all, prefs@);
        }
        let mut out: Vec<Paper> = Vec::new();
        let mut rest = filtered;
        let n = rest.len();
        let mut i: usize = 0;
        assert(ks.skip(0) =~= ks);
        while rest.len() > 0
            invariant
                ks.len() == n,
                i + rest.len() == n,
                papers_view(rest@) == ks.skip(i as int),
                forall|k: int| 0 <= k < ks.len() ==> all.contains(#[trigger] ks[k]),
                forall|k: int| 0 <= k < all.len() ==> scorable(#[trigger] all[k], prefs@),
                papers_view(out@) == ks.take(i as int).map_values(
                    |p: PaperView| with_score(p, score(p, prefs@) as int),
                ),
            decreases rest.len(),
        {
            let ghost before_rest = rest@;
            let mut p = rest.remove(0);
            assert(papers_view(before_rest)[0] == ks[i as int]);
            assert(all.contains(ks[i as int]));
            let s = Self::score_paper(&p, prefs);
            p.relevance_score = Some(s);
            let ghost before = papers_view(out@);
            out.push(p);
            assert(papers_view(out@) =~= before.push(with_score(ks[i as int], score(ks[i as int], prefs@) as int)));
            assert(ks.take(i + 1).map_values(|p: PaperView| with_score(p, score(p, prefs@) as int)) =~= ks.take(
                i as int,
            ).map_values(|p: PaperView| with_score(p, score(p, prefs@) as int)).push(
                with_score(ks[i as int], score(ks[i as int], prefs@) as int),
            ));
            assert(rest@ =~= before_rest.skip(1));
            assert forall|k: int| 0 <= k < rest@.len() implies papers_view(rest@)[k] == ks.skip(i + 1)[k] by {
                assert(rest@[k] == before_rest[k + 1]);
                assert(papers_view(before_rest)[k + 1] == ks.skip(i as int)[k + 1]);
            }
            assert(papers_view(rest@) =~= ks.skip(i + 1));
            i += 1;
        }
        assert(ks.take(i as int) =~= ks);
        out
    }

    /// The papers that pass the user's filters, in their order.
    pub fn filter_papers(papers: Vec<Paper>, prefs: &UserPreferences) -> (r: Vec<Paper>)
        ensures
            papers_view(r@) == kept(papers_view(papers@), prefs@),
    {
        let ghost all = papers_view(papers@);
        let mut out: Vec<Paper> = Vec::new();
        let mut rest = papers;
        let n = rest.len();
        let mut i: usize = 0;
        assert(all.take(0) =~= Seq::<PaperView>::empty());
        assert(all.skip(0) =~= all);
        while rest.len() > 0
            invariant
                all.len() == n,
                i + rest.len() == n,
                papers_view(rest@) == all.skip(i as int),
                papers_view(out@) == kept(all.take(i as int), prefs@),
            decreases rest.len(),
        {
            let ghost before_rest = rest@;
            let p = rest.remove(0);
            assert(p == before_rest[0]);
            assert(papers_view(before_rest)[0] == all[i as int]);
            assert(all.take(i + 1).drop_last() =~= all.take(i as int));
            if Self::matches_preferences(&p, prefs) {
                let ghost before = papers_view(out@);
                out.push(p);
                assert(papers_view(out@) =~= before.push(all[i as int]));
            }
            assert(rest@ =~= before_rest.skip(1));
            assert forall|k: int| 0 <= k < rest@.len() implies papers_view(rest@)[k] == all.skip(
                i + 1,
            )[k] by {
                assert(rest@[k] == before_rest[k + 1]);
                assert(papers_view(before_rest)[k + 1] == all.skip(i as int)[k + 1]);
            }
            assert(papers_view(rest@) =~= all.skip(i + 1));
            i += 1;
        }
        assert(all.take(i as int) =~= all);
        out
    }
}

} // verus!
