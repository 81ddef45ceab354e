//! The arXiv search: its query URL and the reading of its Atom feed into papers.

use crate::feed::{Pattern, capture, capture_exec, captures, captures_exec};
use crate::order::{SortKey, concat, merge_unique, sort_desc, sort_papers, unique_by_id};
use crate::paper::{Paper, PaperView, papers_view, strs};
use crate::text::{
    chars_of, decimal, decimal_chars, push_all, push_str, replace_char, replace_char_chars,
    string_of, trim, trim_chars, views,
};
use crate::time::{UtcTime, now, parse_rfc3339, spec_parse_rfc3339};
use vstd::prelude::*;

verus! {

/// The strings made of the given character sequences.
pub fn strings_of(v: &Vec<Vec<char>>) -> (r: Vec<String>)
    ensures
        strs(r@) == views(v@),
{
    let mut r: Vec<String> = Vec::new();
    let mut i: usize = 0;
    while i < v.len()
        invariant
            i <= v.len(),
            strs(r@) == views(v@).take(i as int),
        decreases v.len() - i,
    {
        let s = string_of(&v[i]);
        let ghost before = strs(r@);
        r.push(s);
        assert(strs(r@) =~= before.push(v@[i as int]@));
        assert(views(v@).take(i + 1) =~= views(v@).take(i as int).push(v@[i as int]@));
        i += 1;
    }
    assert(views(v@).take(i as int) =~= views(v@));
    r
}

/// A captured title or abstract: line breaks made spaces, surrounding blanks removed.
pub open spec fn clean(c: Option<Seq<char>>) -> Seq<char> {
    match c {
        Some(t) => trim(replace_char(t, '\n', " "@)),
        None => Seq::empty(),
    }
}

/// The time written in a captured date, or `fallback` when there is none or it does not parse.
pub open spec fn time_or(c: Option<Seq<char>>, fallback: UtcTime) -> UtcTime {
    match c {
        Some(t) => match spec_parse_rfc3339(t) {
            Some(u) => u,
            None => fallback,
        },
        None => fallback,
    }
}

/// The paper described by one feed entry, if it has an identifier and a title;
/// `now` stands for a publication date that is missing or unreadable.
pub open spec fn entry_paper(e: Seq<char>, now: UtcTime) -> Option<PaperView> {
    let id = match capture(e, Pattern::Id) {
        Some(c) => c,
        None => Seq::empty(),
    };
    let title = clean(capture(e, Pattern::Title));
    let published = time_or(capture(e, Pattern::Published), now);
    let pdf_url = match capture(e, Pattern::Pdf) {
        Some(c) => c,
        None => match capture(e, Pattern::PdfAlt) {
            Some(c) => c,
            None => Seq::empty(),
        },
    };
    if id.len() == 0 || title.len() == 0 {
        None
    } else {
        Some(
            PaperView {
                id,
                title,
                authors: captures(e, Pattern::Name),
                abstract_text: clean(capture(e, Pattern::Summary)),
                categories: captures(e, Pattern::Category),
                published,
                updated: time_or(capture(e, Pattern::Updated), published),
                pdf_url,
                relevance_score: None,
                summary: None,
                source: "arxiv"@,
                venue: None,
                is_read: false,
            },
        )
    }
}

/// The papers of the given entries, in order, skipping entries without identifier or title.
pub open spec fn entries_papers(es: Seq<Seq<char>>, now: UtcTime) -> Seq<PaperView>
    decreases es.len(),
{
    if es.len() == 0 {
        Seq::empty()
    } else {
        let prev = entries_papers(es.drop_last(), now);
        match entry_paper(es.last(), now) {
            Some(p) => prev.push(p),
            None => prev,
        }
    }
}

/// The papers of a feed.
pub open spec fn feed_papers(xml: Seq<char>, now: UtcTime) -> Seq<PaperView> {
    entries_papers(captures(xml, Pattern::Entry), now)
}

/// Every paper read from a feed has an identifier and a title, comes from
/// arXiv, and is unread and unscored.
pub proof fn lemma_entries_papers_valid(es: Seq<Seq<char>>, now: UtcTime)
    ensures
        forall|k: int|
            0 <= k < entries_papers(es, now).len() ==> {
                let p = #[trigger] entries_papers(es, now)[k];
                &&& p.id.len() > 0
                &&& p.title.len() > 0
                &&& p.source == "arxiv"@
                &&& !p.is_read
                &&& p.relevance_score is None
            },
    decreases es.len(),
{
    if es.len() > 0 {
        let d = es.drop_last();
        lemma_entries_papers_valid(d, now);
        let ps = entries_papers(es, now);
        assert forall|k: int| 0 <= k < ps.len() implies {
            let p = #[trigger] ps[k];
            &&& p.id.len() > 0
            &&& p.title.len() > 0
            &&& p.source == "arxiv"@
            &&& !p.is_read
            &&& p.relevance_score is None
        } by {
            if k < entries_papers(d, now).len() {
                assert(ps[k] == entries_papers(d, now)[k]);
            }
        }
    }
}

/// The arXiv query URL for a search.
pub open spec fn search_url(base: Seq<char>, query: Seq<char>, max_results: nat) -> Seq<char> {
    base + "?search_query="@ + query + "&start=0&max_results="@ + decimal(max_results)
        + "&sortBy=submittedDate&sortOrder=descending"@
}

/// The arXiv Atom API.
pub struct ArxivClient {
    pub base_url: String,
}

impl ArxivClient {
    /// The client of `https://export.arxiv.org/api/query`.
    pub fn new() -> (c: ArxivClient)
        ensures
            c.base_url@ == "https://export.arxiv.org/api/query"@,
    {
        ArxivClient { base_url: "https://export.arxiv.org/api/query".to_owned() }
    }

    /// The URL that asks for the newest `max_results` papers matching `query`.
    pub fn search_url(&self, query: &str, max_results: usize) -> (r: String)
        ensures
            r@ == search_url(self.base_url@, query@, max_results as nat),
    {
        let mut u = chars_of(self.base_url.as_str());
        push_str(&mut u, "?search_query=");
        push_str(&mut u, query);
        push_str(&mut u, "&start=0&max_results=");
        let d = decimal_chars(max_results as u64);
        push_all(&mut u, &d);
        push_str(&mut u, "&sortBy=submittedDate&sortOrder=descending");
        string_of(&u)
    }

    /// The query for the recent papers of an arXiv category such as `cs.RO`.
    pub fn category_query(category: &str) -> (r: String)
        ensures
            r@ == "cat:"@ + category@,
    {
        let mut u = chars_of("cat:");
        push_str(&mut u, category);
        string_of(&u)
    }

    fn clean_exec(c: Option<Vec<char>>) -> (r: Vec<char>)
        ensures
            r@ == clean(match c {
                Some(v) => Some(v@),
                None => None,
            }),
    {
        match c {
            Some(t) => {
                let sp = chars_of(" ");
                let rep = replace_char_chars(&t, '\n', &sp);
                trim_chars(&rep)
            },
            None => Vec::new(),
        }
    }

    fn time_or_exec(c: Option<Vec<char>>, fallback: UtcTime) -> (r: UtcTime)
        ensures
            r == time_or(
                match c {
                    Some(v) => Some(v@),
                    None => None,
                },
                fallback,
            ),
    {
        match c {
            Some(t) => {
                let s = string_of(&t);
                match parse_rfc3339(s.as_str()) {
                    Some(u) => u,
                    None => fallback,
                }
            },
            None => fallback,
        }
    }

    /// The paper of one feed entry.
    pub fn entry_paper(e: &Vec<char>, now: UtcTime) -> (r: Option<Paper>)
        ensures
            match r {
                Some(p) => entry_paper(e@, now) == Some(p@),
                None => entry_paper(e@, now) is None,
            },
    {
        let id = match capture_exec(e, Pattern::Id) {
            Some(c) => c,
            None => Vec::new(),
        };
        let title = Self::clean_exec(capture_exec(e, Pattern::Title));
        let summary = Self::clean_exec(capture_exec(e, Pattern::Summary));
        let published = Self::time_or_exec(capture_exec(e, Pattern::Published), now);
        let updated = Self::time_or_exec(capture_exec(e, Pattern::Updated), published);
        let authors = captures_exec(e, Pattern::Name);
        let categories = captures_exec(e, Pattern::Category);
        let pdf_url = match capture_exec(e, Pattern::Pdf) {
            Some(c) => c,
            None => match capture_exec(e, Pattern::PdfAlt) {
                Some(c) => c,
                None => Vec::new(),
            },
        };
        if id.len() == 0 || title.len() == 0 {
            return None;
        }
        let p = Paper {
            id: string_of(&id),
            title: string_of(&title),
            authors: strings_of(&authors),
            abstract_text: string_of(&summary),
            categories: strings_of(&categories),
            published,
            updated,
            pdf_url: string_of(&pdf_url),
            relevance_score: None,
            summary: None,
            source: "arxiv".to_owned(),
            venue: None,
            is_read: false,
        };
        assert(entry_paper(e@, now) == Some(p@));
        Some(p)
    }

    /// The papers of an Atom feed; `now` stands for missing publication dates.
    pub fn parse_feed_at(&self, xml: &str, now: UtcTime) -> (r: Vec<Paper>)
        ensures
            papers_view(r@) == feed_papers(xml@, now),
    {
        let v = chars_of(xml);
        let es = captures_exec(&v, Pattern::Entry);
        let ghost ev = views(es@);
        let mut out: Vec<Paper> = Vec::new();
        let mut i: usize = 0;
        assert(ev.take(0) =~= Seq::<Seq<char>>::empty());
        while i < es.len()
            invariant
                i <= es.len(),
                ev == views(es@),
                papers_view(out@) == entries_papers(ev.take(i as int), now),
            decreases es.len() - i,
        {
            assert(ev.take(i + 1).drop_last() =~= ev.take(i as int));
            match Self::entry_paper(&es[i], now) {
                Some(p) => {
                    let ghost before = papers_view(out@);
                    out.push(p);
                    assert(papers_view(out@) =~= before.push(p@));
                },
                None => {},
            }
            i += 1;
        }
        assert(ev.take(i as int) =~= ev);
        out
    }

    /// The results of several searches as one list: each identifier once, at its
    /// first paper, newest first (papers published at the same time keep their order).
    pub fn combine_results(batches: Vec<Vec<Paper>>) -> (r: Vec<Paper>)
        ensures
            papers_view(r@) == sort_desc(
                unique_by_id(concat(batches@.map_values(|b: Vec<Paper>| papers_view(b@)))),
                SortKey::Published,
            ),
    {
        let merged = merge_unique(batches);
        sort_papers(merged, SortKey::Published)
    }

    /// The papers of an Atom feed; a missing or unreadable publication date
    /// becomes the time of the call (the start of 1970 when the clock reads earlier).
    pub fn parse_feed(&self, xml: &str) -> (r: Vec<Paper>)
        ensures
            exists|t: UtcTime| papers_view(r@) == feed_papers(xml@, t),
    {
        let t = now();
        self.parse_feed_at(xml, t)
    }
}

impl Default for ArxivClient {
    fn default() -> (c: ArxivClient)
        ensures
            c.base_url@ == "https://export.arxiv.org/api/query"@,
    {
        ArxivClient::new()
    }
}

} // verus!
