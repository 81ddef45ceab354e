//! The Semantic Scholar search: its query URL, the conversion of its records
//! into papers, and the filter by venue.

use crate::paper::{Paper, PaperView, opt_str, papers_view, strs};
use crate::text::{
    chars_of, contains, contains_chars, decimal, decimal_chars, find_char, lowercase_chars,
    push_all, push_str, spec_to_lowercase, starts_with, starts_with_chars, string_of, trim, trim_chars,
};
use crate::time::{UtcTime, now, parse_rfc3339, spec_parse_rfc3339, spec_year_start, year_start};
use vstd::prelude::*;

verus! {

/// An author of a Semantic Scholar record.
pub struct AuthorData {
    pub name: String,
}

/// The external identifiers of a Semantic Scholar record.
pub struct ExternalIds {
    pub arxiv: Option<String>,
    pub doi: Option<String>,
}

/// One record of a Semantic Scholar search.
pub struct PaperData {
    pub paper_id: String,
    pub title: Option<String>,
    pub authors: Vec<AuthorData>,
    pub abstract_text: Option<String>,
    pub year: Option<i32>,
    pub venue: Option<String>,
    pub external_ids: Option<ExternalIds>,
    pub url: Option<String>,
    pub citation_count: Option<i32>,
    pub publication_date: Option<String>,
}

/// The content of a record.
pub struct PaperDataView {
    pub paper_id: Seq<char>,
    pub title: Option<Seq<char>>,
    pub authors: Seq<Seq<char>>,
    pub abstract_text: Option<Seq<char>>,
    pub year: Option<i32>,
    pub venue: Option<Seq<char>>,
    pub arxiv_id: Option<Seq<char>>,
    pub url: Option<Seq<char>>,
    pub citation_count: Option<i32>,
    pub publication_date: Option<Seq<char>>,
}

impl View for PaperData {
    type V = PaperDataView;

    open spec fn view(&self) -> PaperDataView {
        PaperDataView {
            paper_id: self.paper_id@,
            title: opt_str(self.title),
            authors: self.authors@.map_values(|a: AuthorData| a.name@),
            abstract_text: opt_str(self.abstract_text),
            year: self.year,
            venue: opt_str(self.venue),
            arxiv_id: match self.external_ids {
                Some(e) => opt_str(e.arxiv),
                None => None,
            },
            url: opt_str(self.url),
            citation_count: self.citation_count,
            publication_date: opt_str(self.publication_date),
        }
    }
}

/// The publication time of a record: its date when one is given (the current
/// time `now` if that date does not parse), else the start of its year, else `now`.
pub open spec fn record_time(d: PaperDataView, now: UtcTime) -> UtcTime {
    let t = match d.publication_date {
        Some(s) => spec_parse_rfc3339(s),
        None => match d.year {
            Some(y) => spec_year_start(y),
            None => None,
        },
    };
    match t {
        Some(u) => u,
        None => now,
    }
}

/// Where the text of a paper with identifier `id` and no URL is found.
pub open spec fn fallback_url(id: Seq<char>) -> Seq<char> {
    if starts_with(id, "arXiv:"@) || contains(id, seq!['.']) {
        "https://arxiv.org/abs/"@ + id
    } else {
        "https://api.semanticscholar.org/"@ + id
    }
}

/// The paper of a record; none when the record has no title, or a blank one.
pub open spec fn record_paper(d: PaperDataView, now: UtcTime) -> Option<PaperView> {
    match d.title {
        None => None,
        Some(t) => {
            let title = trim(t);
            if title.len() == 0 {
                None
            } else {
                let id = match d.arxiv_id {
                    Some(a) => a,
                    None => d.paper_id,
                };
                let published = record_time(d, now);
                Some(
                    PaperView {
                        id,
                        title,
                        authors: d.authors,
                        abstract_text: match d.abstract_text {
                            Some(a) => a,
                            None => Seq::empty(),
                        },
                        categories: Seq::empty(),
                        published,
                        updated: published,
                        pdf_url: match d.url {
                            Some(u) => u,
                            None => fallback_url(id),
                        },
                        relevance_score: match d.citation_count {
                            Some(c) => Some(if c < 10 {
                                c as i64
                            } else {
                                10
                            }),
                            None => None,
                        },
                        summary: None,
                        source: "semantic_scholar"@,
                        venue: d.venue,
                        is_read: false,
                    },
                )
            }
        },
    }
}

/// The papers of the records that have a title, in order.
pub open spec fn records_papers(ds: Seq<PaperDataView>, now: UtcTime) -> Seq<PaperView>
    decreases ds.len(),
{
    if ds.len() == 0 {
        Seq::empty()
    } else {
        let prev = records_papers(ds.drop_last(), now);
        match record_paper(ds.last(), now) {
            Some(p) => prev.push(p),
            None => prev,
        }
    }
}

/// A record becomes a paper exactly when it has a title that is not blank, and
/// the paper carries the record's content: its trimmed title, its authors in
/// order, its abstract (empty only when the record has none), its venue, its
/// arXiv identifier when it has one (else its own), its URL when it has one,
/// no categories, and Semantic Scholar as source.
pub proof fn lemma_record_paper_carries(d: PaperDataView, now: UtcTime)
    ensures
        record_paper(d, now) is Some <==> (d.title matches Some(t) && trim(t).len() > 0),
        record_paper(d, now) matches Some(p) ==> {
            &&& d.title matches Some(t) && p.title == trim(t)
            &&& p.authors == d.authors
            &&& (d.abstract_text matches Some(a) ==> p.abstract_text == a)
            &&& (d.abstract_text is None ==> p.abstract_text.len() == 0)
            &&& p.venue == d.venue
            &&& (d.arxiv_id matches Some(a) ==> p.id == a)
            &&& (d.arxiv_id is None ==> p.id == d.paper_id)
            &&& (d.url matches Some(u) ==> p.pdf_url == u)
            &&& p.categories.len() == 0
            &&& p.source == "semantic_scholar"@
            &&& p.updated == p.published
            &&& !p.is_read
        },
{
}

/// Every paper made of a list of records is the paper of one of the records,
/// and so carries that record's abstract, authors, venue and title.
pub proof fn lemma_records_papers_from(ds: Seq<PaperDataView>, now: UtcTime)
    ensures
        forall|k: int|
            0 <= k < records_papers(ds, now).len() ==> exists|j: int|
                0 <= j < ds.len() && record_paper(ds[j], now) == Some(#[trigger] records_papers(ds, now)[k]),
    decreases ds.len(),
{
    if ds.len() > 0 {
        let d = ds.drop_last();
        lemma_records_papers_from(d, now);
        let ps = records_papers(ds, now);
        assert forall|k: int| 0 <= k < ps.len() implies exists|j: int|
            0 <= j < ds.len() && record_paper(ds[j], now) == Some(#[trigger] ps[k]) by {
            if k < records_papers(d, now).len() {
                assert(ps[k] == records_papers(d, now)[k]);
                let j = choose|j: int| 0 <= j < d.len() && record_paper(d[j], now) == Some(records_papers(d, now)[k]);
                assert(ds[j] == d[j]);
            } else {
                assert(record_paper(ds[ds.len() - 1], now) == Some(ps[k]));
            }
        }
    }
}

/// Every paper made of records has a title, comes from Semantic Scholar, is
/// unread, and has a score of at most ten when it has one.
pub proof fn lemma_records_papers_valid(ds: Seq<PaperDataView>, now: UtcTime)
    ensures
        forall|k: int|
            0 <= k < records_papers(ds, now).len() ==> {
                let p = #[trigger] records_papers(ds, now)[k];
                &&& p.title.len() > 0
                &&& p.source == "semantic_scholar"@
                &&& !p.is_read
                &&& (p.relevance_score matches Some(s) ==> s <= 10)
            },
    decreases ds.len(),
{
    if ds.len() > 0 {
        let d = ds.drop_last();
        lemma_records_papers_valid(d, now);
        let ps = records_papers(ds, now);
        assert forall|k: int| 0 <= k < ps.len() implies {
            let p = #[trigger] ps[k];
            &&& p.title.len() > 0
            &&& p.source == "semantic_scholar"@
            &&& !p.is_read
            &&& (p.relevance_score matches Some(s) ==> s <= 10)
        } by {
            if k < records_papers(d, now).len() {
                assert(ps[k] == records_papers(d, now)[k]);
            }
        }
    }
}

/// The venue of `p` contains, case-insensitively, one of `venues`.
pub open spec fn at_venue(p: PaperView, venues: Seq<Seq<char>>) -> bool {
    match p.venue {
        Some(v) => exists|j: int|
            0 <= j < venues.len() && contains(
                spec_to_lowercase(v),
                spec_to_lowercase(#[trigger] venues[j]),
            ),
        None => false,
    }
}

/// The papers at one of the venues, in order.
pub open spec fn at_venues(ps: Seq<PaperView>, venues: Seq<Seq<char>>) -> Seq<PaperView>
    decreases ps.len(),
{
    if ps.len() == 0 {
        Seq::empty()
    } else if at_venue(ps.last(), venues) {
        at_venues(ps.drop_last(), venues).push(ps.last())
    } else {
        at_venues(ps.drop_last(), venues)
    }
}

/// The venue of `p` names `name`: lower-cased, it contains `name` lower-cased.
pub open spec fn names_venue(p: PaperView, name: Seq<char>) -> bool {
    p.venue matches Some(v) && contains(spec_to_lowercase(v), spec_to_lowercase(name))
}

/// A paper whose venue names the venue at any position of the list is at one of
/// the venues.
pub proof fn lemma_venue_at_any_position(p: PaperView, venues: Seq<Seq<char>>, j: int)
    requires
        0 <= j < venues.len(),
        names_venue(p, venues[j]),
    ensures
        at_venue(p, venues),
{
}

/// The venue filter keeps every paper whose venue names one of the venues, at
/// whatever position of the list, and keeps nothing else: each paper it keeps is
/// one of the given papers and has a venue that names one of the venues.
pub proof fn lemma_at_venues_exact(ps: Seq<PaperView>, venues: Seq<Seq<char>>)
    ensures
        forall|i: int, j: int|
            0 <= i < ps.len() && 0 <= j < venues.len() && names_venue(#[trigger] ps[i], #[trigger] venues[j])
                ==> at_venues(ps, venues).contains(ps[i]),
        forall|k: int|
            0 <= k < at_venues(ps, venues).len() ==> ps.contains(#[trigger] at_venues(ps, venues)[k]) && exists|j: int|
                0 <= j < venues.len() && names_venue(at_venues(ps, venues)[k], #[trigger] venues[j]),
    decreases ps.len(),
{
    if ps.len() > 0 {
        let d = ps.drop_last();
        lemma_at_venues_exact(d, venues);
        let r = at_venues(ps, venues);
        assert forall|i: int, j: int|
            0 <= i < ps.len() && 0 <= j < venues.len() && names_venue(#[trigger] ps[i], #[trigger] venues[j])
            implies r.contains(ps[i]) by {
            if i < d.len() {
                assert(d[i] == ps[i]);
                assert(names_venue(d[i], venues[j]));
                let m = choose|m: int| 0 <= m < at_venues(d, venues).len() && at_venues(d, venues)[m] == d[i];
                assert(r[m] == d[i]);
            } else {
                lemma_venue_at_any_position(ps[i], venues, j);
                assert(r[r.len() - 1] == ps[i]);
            }
        }
        assert forall|k: int| 0 <= k < r.len() implies ps.contains(#[trigger] r[k]) && exists|j: int|
            0 <= j < venues.len() && names_venue(r[k], #[trigger] venues[j]) by {
            if k < at_venues(d, venues).len() {
                assert(r[k] == at_venues(d, venues)[k]);
                let i = choose|i: int| 0 <= i < d.len() && d[i] == r[k];
                assert(ps[i] == d[i]);
            } else {
                assert(r[k] == ps[ps.len() - 1]);
                assert(at_venue(ps.last(), venues));
                let j = choose|j: int| 0 <= j < venues.len() && contains(
                    spec_to_lowercase(ps.last().venue->0),
                    spec_to_lowercase(#[trigger] venues[j]),
                );
                assert(names_venue(r[k], venues[j]));
            }
        }
    }
}

/// The fields asked of every record.
pub open spec fn fields() -> Seq<char> {
    "title,authors,abstract,year,venue,externalIds,url,citationCount,publicationDate"@
}

/// The search URL; at most 100 results are asked for.
pub open spec fn scholar_search_url(base: Seq<char>, query: Seq<char>, limit: nat) -> Seq<char> {
    base + "/paper/search?query="@ + query + "&limit="@ + decimal(if limit < 100 {
        limit
    } else {
        100
    }) + "&fields="@ + fields()
}

/// The Semantic Scholar graph API.
pub struct SemanticScholarClient {
    pub base_url: String,
}

impl SemanticScholarClient {
    /// The client of `https://api.semanticscholar.org/graph/v1`.
    pub fn new() -> (c: SemanticScholarClient)
        ensures
            c.base_url@ == "https://api.semanticscholar.org/graph/v1"@,
    {
        SemanticScholarClient { base_url: "https://api.semanticscholar.org/graph/v1".to_owned() }
    }

    /// The URL of a search for `query`.
    pub fn search_url(&self, query: &str, limit: usize) -> (r: String)
        ensures
            r@ == scholar_search_url(self.base_url@, query@, limit as nat),
    {
        let mut u = chars_of(self.base_url.as_str());
        push_str(&mut u, "/paper/search?query=");
        push_str(&mut u, query);
        push_str(&mut u, "&limit=");
        let n: u64 = if limit < 100 {
            limit as u64
        } else {
            100
        };
        let d = decimal_chars(n);
        push_all(&mut u, &d);
        push_str(&mut u, "&fields=");
        push_str(&mut u, "title,authors,abstract,year,venue,externalIds,url,citationCount,publicationDate");
        string_of(&u)
    }

    /// The venues searched for robotics papers.
    pub fn robotics_venues() -> (v: Vec<String>)
        ensures
            strs(v@) == seq![
                "ICRA"@,
                "IROS"@,
                "RSS"@,
                "CoRL"@,
                "Robotics"@,
                "Science Robotics"@,
                "T-RO"@,
                "IJRR"@,
                "RAL"@,
            ],
    {
        let mut v: Vec<String> = Vec::new();
        v.push("ICRA".to_owned());
        v.push("IROS".to_owned());
        v.push("RSS".to_owned());
        v.push("CoRL".to_owned());
        v.push("Robotics".to_owned());
        v.push("Science Robotics".to_owned());
        v.push("T-RO".to_owned());
        v.push("IJRR".to_owned());
        v.push("RAL".to_owned());
        let ghost expect = seq![
            "ICRA"@,
            "IROS"@,
            "RSS"@,
            "CoRL"@,
            "Robotics"@,
            "Science Robotics"@,
            "T-RO"@,
            "IJRR"@,
            "RAL"@,
        ];
        assert(strs(v@) =~= expect);
        v
    }

    fn fallback_url_exec(id: &Vec<char>) -> (r: Vec<char>)
        ensures
            r@ == fallback_url(id@),
    {
        let prefix = chars_of("arXiv:");
        let arxiv_like = starts_with_chars(id, &prefix) || find_char(id, '.').is_some();
        let mut r = if arxiv_like {
            chars_of("https://arxiv.org/abs/")
        } else {
            chars_of("https://api.semanticscholar.org/")
        };
        push_all(&mut r, id);
        r
    }

    /// The paper of one record; `now` stands for a missing or unreadable date.
    pub fn convert_at(d: PaperData, now: UtcTime) -> (r: Option<Paper>)
        ensures
            match r {
                Some(p) => record_paper(d@, now) == Some(p@),
                None => record_paper(d@, now) is None,
            },
    {
        let ghost dv = d@;
        let title = match &d.title {
            Some(t) => trim_chars(&chars_of(t.as_str())),
            None => {
                return None;
            },
        };
        if title.len() == 0 {
            return None;
        }
        let id = match &d.external_ids {
            Some(e) => match &e.arxiv {
                Some(a) => a.clone(),
                None => d.paper_id.clone(),
            },
            None => d.paper_id.clone(),
        };
        assert(id@ == match dv.arxiv_id {
            Some(a) => a,
            None => dv.paper_id,
        });
        let mut authors: Vec<String> = Vec::new();
        let mut i: usize = 0;
        while i < d.authors.len()
            invariant
                i <= d.authors.len(),
                dv == d@,
                strs(authors@) == dv.authors.take(i as int),
            decreases d.authors.len() - i,
        {
            let ghost before = strs(authors@);
            authors.push(d.authors[i].name.clone());
            assert(strs(authors@) =~= before.push(dv.authors[i as int]));
            assert(dv.authors.take(i + 1) =~= dv.authors.take(i as int).push(dv.authors[i as int]));
            i += 1;
        }
        assert(dv.authors.take(i as int) =~= dv.authors);
        let parsed = match &d.publication_date {
            Some(s) => parse_rfc3339(s.as_str()),
            None => match d.year {
                Some(y) => year_start(y),
                None => None,
            },
        };
        let published = match parsed {
            Some(u) => u,
            None => now,
        };
        let idv = chars_of(id.as_str());
        let pdf_url = match &d.url {
            Some(u) => u.clone(),
            None => string_of(&Self::fallback_url_exec(&idv)),
        };
        let relevance_score = match d.citation_count {
            Some(c) => Some(if c < 10 {
                c as i64
            } else {
                10
            }),
            None => None,
        };
        let abstract_text = match &d.abstract_text {
            Some(a) => a.clone(),
            None => String::new(),
        };
        let venue = match &d.venue {
            Some(v) => Some(v.clone()),
            None => None,
        };
        let p = Paper {
            id,
            title: string_of(&title),
            authors,
            abstract_text,
            categories: Vec::new(),
            published,
            updated: published,
            pdf_url,
            relevance_score,
            summary: None,
            source: "semantic_scholar".to_owned(),
            venue,
            is_read: false,
        };
        assert(p@.categories =~= Seq::<Seq<char>>::empty());
        assert(record_paper(dv, now) == Some(p@));
        Some(p)
    }

    /// The paper of one record; a missing or unreadable date becomes the time of the call
    /// (the start of 1970 when the clock reads earlier).
    pub fn convert(d: PaperData) -> (r: Option<Paper>)
        ensures
            exists|t: UtcTime|
                match r {
                    Some(p) => record_paper(d@, t) == Some(p@),
                    None => record_paper(d@, t) is None,
                },
    {
        let t = now();
        Self::convert_at(d, t)
    }

    /// The papers of the records that have a title, in order.
    pub fn convert_all_at(data: Vec<PaperData>, now: UtcTime) -> (r: Vec<Paper>)
        ensures
            papers_view(r@) == records_papers(data@.map_values(|d: PaperData| d@), now),
    {
        let ghost all = data@.map_values(|d: PaperData| d@);
        let mut out: Vec<Paper> = Vec::new();
        let mut rest = data;
        let n = rest.len();
        let mut i: usize = 0;
        assert(all.take(0) =~= Seq::<PaperDataView>::empty());
        while rest.len() > 0
            invariant
                all.len() == n,
                i + rest.len() == n,
                forall|j: int| 0 <= j < rest@.len() ==> (#[trigger] rest@[j])@ == all[i + j],
                papers_view(out@) == records_papers(all.take(i as int), now),
            decreases rest.len(),
        {
            let ghost before_rest = rest@;
            let d = rest.remove(0);
            assert(d@ == all[i as int]);
            assert(all.take(i + 1).drop_last() =~= all.take(i as int));
            match Self::convert_at(d, now) {
                Some(p) => {
                    let ghost before = papers_view(out@);
                    out.push(p);
                    assert(papers_view(out@) =~= before.push(p@));
                },
                None => {},
            }
            assert forall|j: int| 0 <= j < rest@.len() implies (#[trigger] rest@[j])@ == all[i + 1 + j] by {
                assert(rest@[j] == before_rest[j + 1]);
            }
            i += 1;
        }
        assert(all.take(i as int) =~= all);
        out
    }

    fn venue_matches(p: &Paper, venues: &Vec<String>) -> (r: bool)
        ensures
            r == at_venue(p@, strs(venues@)),
    {
        match &p.venue {
            None => false,
            Some(v) => {
                let lv = lowercase_chars(&chars_of(v.as_str()));
                let mut j: usize = 0;
                while j < venues.len()
                    invariant
                        j <= venues.len(),
                        p.venue == Some(*v),
                        lv@ == spec_to_lowercase(v@),
                        forall|b: int|
                            0 <= b < j ==> !contains(spec_to_lowercase(v@), spec_to_lowercase(#[trigger] strs(venues@)[b])),
                    decreases venues.len() - j,
                {
                    let lf = lowercase_chars(&chars_of(venues[j].as_str()));
                    if contains_chars(&lv, &lf) {
                        assert(contains(spec_to_lowercase(v@), spec_to_lowercase(strs(venues@)[j as int])));
                        return true;
                    }
                    j += 1;
                }
                false
            },
        }
    }

    /// The papers whose venue names one of `venues`, in order.
    pub fn filter_by_venues(papers: Vec<Paper>, venues: &Vec<String>) -> (r: Vec<Paper>)
        ensures
            papers_view(r@) == at_venues(papers_view(papers@), strs(venues@)),
    {
        let ghost all = papers_view(papers@);
        let mut out: Vec<Paper> = Vec::new();
        let mut rest = papers;
        let n = rest.len();
        let mut i: usize = 0;
        assert(all.take(0) =~= Seq::<PaperView>::empty());
        assert(all.skip(0) =~= all);
        while rest.len() > 0
            invariant
                all.len() == n,
                i + rest.len() == n,
                papers_view(rest@) == all.skip(i as int),
                papers_view(out@) == at_venues(all.take(i as int), strs(venues@)),
            decreases rest.len(),
        {
            let ghost before_rest = rest@;
            let p = rest.remove(0);
            assert(papers_view(before_rest)[0] == all[i as int]);
            assert(all.take(i + 1).drop_last() =~= all.take(i as int));
            if Self::venue_matches(&p, venues) {
                let ghost before = papers_view(out@);
                out.push(p);
                assert(papers_view(out@) =~= before.push(all[i as int]));
            }
            assert(rest@ =~= before_rest.skip(1));
            assert forall|j: int| 0 <= j < rest@.len() implies papers_view(rest@)[j] == all.skip(i + 1)[j] by {
                assert(rest@[j] == before_rest[j + 1]);
                assert(papers_view(before_rest)[j + 1] == all.skip(i as int)[j + 1]);
            }
            assert(papers_view(rest@) =~= all.skip(i + 1));
            i += 1;
        }
        assert(all.take(i as int) =~= all);
        out
    }
}

impl Default for SemanticScholarClient {
    fn default() -> (c: SemanticScholarClient)
        ensures
            c.base_url@ == "https://api.semanticscholar.org/graph/v1"@,
    {
        SemanticScholarClient::new()
    }
}

} // verus!
