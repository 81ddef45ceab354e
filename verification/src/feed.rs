//! Reading the entries of an arXiv Atom feed.
//!
//! Each field is taken by a pattern; the patterns are matched the way a
//! backtracking regular-expression engine matches them: the leftmost position
//! where the pattern matches wins, lazy repetitions take the shortest text,
//! greedy ones the longest, and repeated searches go on after the previous match.

use crate::text::{chars_of, find_chars_from, find_from, matches_at, occurs_at, slice_chars, views};
use vstd::prelude::*;

verus! {

/// The fields read from a feed.
#[derive(Clone, Copy)]
pub enum Pattern {
    /// `(?s)<entry>(.*?)</entry>`
    Entry,
    /// `<id>http://arxiv\.org/abs/([^<]+)</id>`
    Id,
    /// `(?s)<title>(.*?)</title>`: a title may span lines
    Title,
    /// `(?s)<summary>(.*?)</summary>`: an abstract may span lines
    Summary,
    /// `<published>(.*?)</published>`
    Published,
    /// `<updated>(.*?)</updated>`
    Updated,
    /// `<name>(.*?)</name>`
    Name,
    /// `category term="([^"]+)"`
    Category,
    /// `link[^>]*title="pdf"[^>]*href="([^"]+)"`
    Pdf,
    /// `href="([^"]*\.pdf[^"]*)"`
    PdfAlt,
}

/// The first index `>= i` holding `c`, or the length of `s`.
pub open spec fn upto_char(s: Seq<char>, c: char, i: int) -> int {
    match find_from(s, seq![c], i) {
        Some(k) => k,
        None => s.len() as int,
    }
}

/// The opening and closing tags of the patterns that capture one line between two tags.
pub open spec fn line_tags(pat: Pattern) -> (Seq<char>, Seq<char>) {
    match pat {
        Pattern::Title => ("<title>"@, "</title>"@),
        Pattern::Summary => ("<summary>"@, "</summary>"@),
        Pattern::Published => ("<published>"@, "</published>"@),
        Pattern::Updated => ("<updated>"@, "</updated>"@),
        _ => ("<name>"@, "</name>"@),
    }
}

/// The patterns whose capture stays on one line (all between-tag patterns but
/// the title and the abstract).
pub open spec fn one_line(pat: Pattern) -> bool {
    !(pat is Title || pat is Summary)
}

/// `open`, then the shortest text (without a line break when `single` holds),
/// then `close`, at `p`.
pub open spec fn line_at(s: Seq<char>, p: int, open: Seq<char>, close: Seq<char>, single: bool) -> Option<(int, int, int)> {
    if occurs_at(s, p, open) {
        let q = p + open.len();
        match find_from(s, close, q) {
            Some(k) => if !single || upto_char(s, '\n', q) >= k {
                Some((q, k, k + close.len()))
            } else {
                None
            },
            None => None,
        }
    } else {
        None
    }
}

/// `href="`, one or more characters other than `"`, then `"`, at `r`: the capture.
pub open spec fn href_at(s: Seq<char>, r: int) -> Option<(int, int)> {
    if occurs_at(s, r, "href=\""@) {
        let t = upto_char(s, '"', r + 6);
        if t > r + 6 && t < s.len() {
            Some((r + 6, t))
        } else {
            None
        }
    } else {
        None
    }
}

/// The largest `r` in `a..=j` at which `href_at` matches.
pub open spec fn last_href(s: Seq<char>, a: int, j: int) -> Option<int>
    decreases j - a + 1,
{
    if j < a {
        None
    } else if href_at(s, j) is Some {
        Some(j)
    } else {
        last_href(s, a, j - 1)
    }
}

/// `link[^>]*title="pdf"[^>]*href="([^"]+)"` at `p`. The first `[^>]*` is
/// greedy, so the capture is that of the last `href="..."` before the first `>`
/// after `link`, provided a `title="pdf"` ends before it.
pub open spec fn pdf_at(s: Seq<char>, p: int) -> Option<(int, int, int)> {
    if occurs_at(s, p, "link"@) {
        let a = p + 4;
        let b = upto_char(s, '>', a);
        match last_href(s, a, b) {
            Some(r) => match find_from(s, "title=\"pdf\""@, a) {
                Some(q) => if q + 11 <= r {
                    let (c0, c1) = href_at(s, r).unwrap();
                    Some((c0, c1, c1 + 1))
                } else {
                    None
                },
                None => None,
            },
            None => None,
        }
    } else {
        None
    }
}

/// Where `pat` matches at `p`: the start and end of its capture and the end of the match.
pub open spec fn match_at(s: Seq<char>, p: int, pat: Pattern) -> Option<(int, int, int)> {
    match pat {
        Pattern::Entry => if occurs_at(s, p, "<entry>"@) {
            match find_from(s, "</entry>"@, p + 7) {
                Some(k) => Some((p + 7, k, k + 8)),
                None => None,
            }
        } else {
            None
        },
        Pattern::Id => if occurs_at(s, p, "<id>http://arxiv.org/abs/"@) {
            let q = p + 25;
            let r = upto_char(s, '<', q);
            if r > q && occurs_at(s, r, "</id>"@) {
                Some((q, r, r + 5))
            } else {
                None
            }
        } else {
            None
        },
        Pattern::Category => if occurs_at(s, p, "category term=\""@) {
            let q = p + 15;
            let r = upto_char(s, '"', q);
            if r > q && r < s.len() {
                Some((q, r, r + 1))
            } else {
                None
            }
        } else {
            None
        },
        Pattern::Pdf => pdf_at(s, p),
        Pattern::PdfAlt => if occurs_at(s, p, "href=\""@) {
            let q = p + 6;
            let t = upto_char(s, '"', q);
            if t < s.len() && find_from(s.subrange(q, t), ".pdf"@, 0) is Some {
                Some((q, t, t + 1))
            } else {
                None
            }
        } else {
            None
        },
        _ => line_at(s, p, line_tags(pat).0, line_tags(pat).1, one_line(pat)),
    }
}

/// The leftmost match of `pat` starting at or after `from`.
pub open spec fn first_match(s: Seq<char>, from: int, pat: Pattern) -> Option<(int, int, int)>
    decreases s.len() + 1 - from,
{
    if from < 0 || from > s.len() {
        None
    } else if match_at(s, from, pat) is Some {
        match_at(s, from, pat)
    } else {
        first_match(s, from + 1, pat)
    }
}

/// The successive matches of `pat` from `from` (each search going on at the end of
/// the previous match), as capture bounds.
pub open spec fn all_matches(s: Seq<char>, from: int, pat: Pattern) -> Seq<(int, int)>
    decreases s.len() + 1 - from,
{
    match first_match(s, from, pat) {
        Some((a, b, m)) => if from < m <= s.len() + 1 {
            seq![(a, b)] + all_matches(s, m, pat)
        } else {
            seq![(a, b)]
        },
        None => Seq::empty(),
    }
}

/// The text captured by the leftmost match of `pat` in `s`.
pub open spec fn capture(s: Seq<char>, pat: Pattern) -> Option<Seq<char>> {
    match first_match(s, 0, pat) {
        Some((a, b, m)) => Some(s.subrange(a, b)),
        None => None,
    }
}

/// The texts captured by the successive matches of `pat` in `s`.
pub open spec fn captures(s: Seq<char>, pat: Pattern) -> Seq<Seq<char>> {
    all_matches(s, 0, pat).map_values(|c: (int, int)| s.subrange(c.0, c.1))
}


/// The bounds of a match, as integers.
pub open spec fn ints3(r: Option<(usize, usize, usize)>) -> Option<(int, int, int)> {
    match r {
        Some((a, b, c)) => Some((a as int, b as int, c as int)),
        None => None,
    }
}

/// Where `pat` ends when it occurs at `i`: within `s`.
pub proof fn lemma_found_within(s: Seq<char>, pat: Seq<char>, i: int)
    requires
        0 <= i,
    ensures
        find_from(s, pat, i) matches Some(k) ==> i <= k && k + pat.len() <= s.len() && occurs_at(s, k, pat),
{
    crate::text::lemma_find_from_found(s, pat, i);
}

fn upto_char_exec(v: &Vec<char>, c: char, i: usize) -> (r: usize)
    ensures
        r == upto_char(v@, c, i as int),
        i <= v.len() ==> i <= r <= v.len(),
        r < v.len() ==> v@[r as int] == c,
{
    let pat = vec![c];
    assert(pat@ =~= seq![c]);
    proof {
        lemma_found_within(v@, seq![c], i as int);
    }
    match find_chars_from(v, &pat, i) {
        Some(k) => {
            assert(v@.subrange(k as int, k + 1)[0] == c);
            k
        },
        None => {
            proof {
                if i > v.len() {
                    assert(find_from(v@, seq![c], i as int) is None);
                }
            }
            v.len()
        },
    }
}

fn line_at_exec(v: &Vec<char>, p: usize, open: &Vec<char>, close: &Vec<char>, single: bool) -> (r: Option<(usize, usize, usize)>)
    requires
        close@.len() > 0,
    ensures
        ints3(r) == line_at(v@, p as int, open@, close@, single),
        r matches Some((a, b, m)) ==> p < m <= v.len() && a <= b <= v.len(),
{
    if !matches_at(v, p, open) {
        return None;
    }
    assert(p + open.len() <= v.len());
    let q = p + open.len();
    proof {
        lemma_found_within(v@, close@, q as int);
    }
    match find_chars_from(v, close, q) {
        Some(k) => {
            if !single || upto_char_exec(v, '\n', q) >= k {
                Some((q, k, k + close.len()))
            } else {
                None
            }
        },
        None => None,
    }
}


fn href_at_exec(v: &Vec<char>, r: usize) -> (res: Option<(usize, usize)>)
    ensures
        match res {
            Some((a, b)) => href_at(v@, r as int) == Some((a as int, b as int)) && b < v.len(),
            None => href_at(v@, r as int) is None,
        },
{
    let lit = chars_of("href=\"");
    proof {
        reveal_strlit("href=\"");
    }
    if !matches_at(v, r, &lit) {
        return None;
    }
    assert(r + lit.len() <= v.len());
    let t = upto_char_exec(v, '"', r + 6);
    if t > r + 6 && t < v.len() {
        Some((r + 6, t))
    } else {
        None
    }
}

fn last_href_exec(v: &Vec<char>, a: usize, j: usize) -> (res: Option<usize>)
    ensures
        match res {
            Some(r) => last_href(v@, a as int, j as int) == Some(r as int),
            None => last_href(v@, a as int, j as int) is None,
        },
{
    let mut k = j;
    loop
        invariant
            k <= j,
            last_href(v@, a as int, j as int) == last_href(v@, a as int, k as int),
        decreases k,
    {
        if k < a {
            return None;
        }
        if href_at_exec(v, k).is_some() {
            return Some(k);
        }
        if k == 0 {
            assert(last_href(v@, a as int, -1) is None);
            return None;
        }
        k -= 1;
    }
}

pub proof fn lemma_last_href(s: Seq<char>, a: int, j: int)
    ensures
        last_href(s, a, j) matches Some(r) ==> a <= r <= j && href_at(s, r) is Some,
    decreases j - a + 1,
{
    if j >= a && href_at(s, j) is None {
        lemma_last_href(s, a, j - 1);
    }
}

fn pdf_at_exec(v: &Vec<char>, p: usize) -> (r: Option<(usize, usize, usize)>)
    ensures
        ints3(r) == pdf_at(v@, p as int),
        r matches Some((a, b, m)) ==> p < m <= v.len() && a <= b <= v.len(),
{
    let link = chars_of("link");
    proof {
        reveal_strlit("link");
    }
    if !matches_at(v, p, &link) {
        return None;
    }
    assert(p + link.len() <= v.len());
    let a = p + 4;
    let b = upto_char_exec(v, '>', a);
    proof {
        lemma_last_href(v@, a as int, b as int);
    }
    match last_href_exec(v, a, b) {
        Some(r) => {
            let title = chars_of("title=\"pdf\"");
            proof {
                reveal_strlit("title=\"pdf\"");
            }
            match find_chars_from(v, &title, a) {
                Some(q) => {
                    if q <= r && r - q >= 11 {
                        match href_at_exec(v, r) {
                            Some((c0, c1)) => Some((c0, c1, c1 + 1)),
                            None => None,
                        }
                    } else {
                        None
                    }
                },
                None => None,
            }
        },
        None => None,
    }
}

fn match_at_exec(v: &Vec<char>, p: usize, pat: Pattern) -> (r: Option<(usize, usize, usize)>)
    ensures
        ints3(r) == match_at(v@, p as int, pat),
        r matches Some((a, b, m)) ==> p < m <= v.len() && a <= b <= v.len(),
{
    match pat {
        Pattern::Entry => {
            let open = chars_of("<entry>");
            proof {
                reveal_strlit("<entry>");
            }
            if !matches_at(v, p, &open) {
                return None;
            }
            assert(p + open.len() <= v.len());
            let close = chars_of("</entry>");
            proof {
                reveal_strlit("</entry>");
            }
            proof {
                lemma_found_within(v@, close@, p + 7);
            }
            match find_chars_from(v, &close, p + 7) {
                Some(k) => Some((p + 7, k, k + 8)),
                None => None,
            }
        },
        Pattern::Id => {
            let open = chars_of("<id>http://arxiv.org/abs/");
            proof {
                reveal_strlit("<id>http://arxiv.org/abs/");
            }
            if !matches_at(v, p, &open) {
                return None;
            }
            assert(p + open.len() <= v.len());
            let q = p + 25;
            let r = upto_char_exec(v, '<', q);
            let close = chars_of("</id>");
            proof {
                reveal_strlit("</id>");
            }
            if r > q && matches_at(v, r, &close) {
                assert(r + close.len() <= v.len());
                Some((q, r, r + 5))
            } else {
                None
            }
        },
        Pattern::Category => {
            let open = chars_of("category term=\"");
            proof {
                reveal_strlit("category term=\"");
            }
            if !matches_at(v, p, &open) {
                return None;
            }
            assert(p + open.len() <= v.len());
            let q = p + 15;
            let r = upto_char_exec(v, '"', q);
            if r > q && r < v.len() {
                Some((q, r, r + 1))
            } else {
                None
            }
        },
        Pattern::Pdf => pdf_at_exec(v, p),
        Pattern::PdfAlt => {
            let open = chars_of("href=\"");
            proof {
                reveal_strlit("href=\"");
            }
            if !matches_at(v, p, &open) {
                return None;
            }
            assert(p + open.len() <= v.len());
            let q = p + 6;
            let t = upto_char_exec(v, '"', q);
            if t < v.len() {
                let inner = slice_chars(v, q, t);
                let dot_pdf = chars_of(".pdf");
                proof {
                    reveal_strlit(".pdf");
                }
                if find_chars_from(&inner, &dot_pdf, 0).is_some() {
                    return Some((q, t, t + 1));
                }
            }
            None
        },
        _ => {
            let (open, close) = match pat {
                Pattern::Title => (chars_of("<title>"), chars_of("</title>")),
                Pattern::Summary => (chars_of("<summary>"), chars_of("</summary>")),
                Pattern::Published => (chars_of("<published>"), chars_of("</published>")),
                Pattern::Updated => (chars_of("<updated>"), chars_of("</updated>")),
                _ => (chars_of("<name>"), chars_of("</name>")),
            };
            proof {
                reveal_strlit("</title>");
                reveal_strlit("</summary>");
                reveal_strlit("</published>");
                reveal_strlit("</updated>");
                reveal_strlit("</name>");
            }
            assert(open@ == line_tags(pat).0 && close@ == line_tags(pat).1);
            let single = match pat {
                Pattern::Title => false,
                Pattern::Summary => false,
                _ => true,
            };
            line_at_exec(v, p, &open, &close, single)
        },
    }
}

/// The leftmost match of `pat` at or after `from`.
pub fn first_match_exec(v: &Vec<char>, from: usize, pat: Pattern) -> (r: Option<(usize, usize, usize)>)
    ensures
        ints3(r) == first_match(v@, from as int, pat),
        r matches Some((a, b, m)) ==> from < m <= v.len() && a <= b <= v.len(),
{
    let mut p = from;
    loop
        invariant
            from <= p,
            first_match(v@, from as int, pat) == first_match(v@, p as int, pat),
        decreases v.len() + 1 - p,
    {
        if p > v.len() {
            return None;
        }
        let m = match_at_exec(v, p, pat);
        if m.is_some() {
            return m;
        }
        if p == v.len() {
            assert(first_match(v@, p + 1, pat) is None);
            return None;
        }
        p += 1;
    }
}

/// The capture bounds of the successive matches of `pat` from `from`.
pub fn all_matches_exec(v: &Vec<char>, from: usize, pat: Pattern) -> (r: Vec<(usize, usize)>)
    ensures
        r@.map_values(|c: (usize, usize)| (c.0 as int, c.1 as int)) == all_matches(v@, from as int, pat),
        forall|k: int| 0 <= k < r@.len() ==> (#[trigger] r@[k]).0 <= r@[k].1 <= v.len(),
{
    let mut out: Vec<(usize, usize)> = Vec::new();
    let mut cur = from;
    loop
        invariant
            out@.map_values(|c: (usize, usize)| (c.0 as int, c.1 as int)) + all_matches(v@, cur as int, pat)
                == all_matches(v@, from as int, pat),
            forall|k: int| 0 <= k < out@.len() ==> (#[trigger] out@[k]).0 <= out@[k].1 <= v.len(),
        decreases v.len() + 1 - cur,
    {
        let ghost before = out@.map_values(|c: (usize, usize)| (c.0 as int, c.1 as int));
        match first_match_exec(v, cur, pat) {
            Some((a, b, m)) => {
                out.push((a, b));
                assert(out@.map_values(|c: (usize, usize)| (c.0 as int, c.1 as int)) =~= before.push(
                    (a as int, b as int),
                ));
                assert(before.push((a as int, b as int)) + all_matches(v@, m as int, pat) =~= before + (seq![
                    (a as int, b as int),
                ] + all_matches(v@, m as int, pat)));
                cur = m;
            },
            None => {
                assert(before + all_matches(v@, cur as int, pat) =~= before);
                return out;
            },
        }
    }
}

/// The text captured by the leftmost match of `pat`.
pub fn capture_exec(v: &Vec<char>, pat: Pattern) -> (r: Option<Vec<char>>)
    ensures
        match r {
            Some(c) => capture(v@, pat) == Some(c@),
            None => capture(v@, pat) is None,
        },
{
    match first_match_exec(v, 0, pat) {
        Some((a, b, m)) => Some(slice_chars(v, a, b)),
        None => None,
    }
}

/// The texts captured by the successive matches of `pat`.
pub fn captures_exec(v: &Vec<char>, pat: Pattern) -> (r: Vec<Vec<char>>)
    ensures
        views(r@) == captures(v@, pat),
{
    let ms = all_matches_exec(v, 0, pat);
    let ghost mv = ms@.map_values(|c: (usize, usize)| (c.0 as int, c.1 as int));
    let mut out: Vec<Vec<char>> = Vec::new();
    let mut i: usize = 0;
    while i < ms.len()
        invariant
            i <= ms.len(),
            mv == ms@.map_values(|c: (usize, usize)| (c.0 as int, c.1 as int)),
            forall|k: int| 0 <= k < ms@.len() ==> (#[trigger] ms@[k]).0 <= ms@[k].1 <= v.len(),
            views(out@) == mv.take(i as int).map_values(|c: (int, int)| v@.subrange(c.0, c.1)),
        decreases ms.len() - i,
    {
        let (a, b) = ms[i];
        let piece = slice_chars(v, a, b);
        let ghost before = views(out@);
        out.push(piece);
        assert(views(out@) =~= before.push(v@.subrange(a as int, b as int)));
        assert(mv.take(i + 1).map_values(|c: (int, int)| v@.subrange(c.0, c.1)) =~= mv.take(i as int).map_values(
            |c: (int, int)| v@.subrange(c.0, c.1),
        ).push(v@.subrange(a as int, b as int)));
        i += 1;
    }
    assert(mv.take(i as int) =~= mv);
    out
}

} // verus!
