//! What the HTTP service computes: search presets, responses, and the fields of
//! a model's translation reply.

use crate::config::ApiConfig;
use crate::filter::{Filter, kept, lemma_kept_from, scorable, scored};
use crate::llm::{LlmConfig, after_think, strip_think};
use crate::order::{concat, lemma_unique_by_id_from, merge_unique, unique_by_id};
use crate::paper::{Paper, PaperView, PreferencesView, Summary, UserPreferences, copy_opt_string, copy_strings, opt_str, papers_view, strs, ONE_BITS};
use crate::text::{
    TrimSet, chars_are, chars_eq, chars_of, find, find_char, find_chars, lemma_find_in_bounds, lines, lines_chars,
    push_str, slice_chars, string_of, trim, trim_by, trim_chars, trim_chars_by,
};
use crate::time::{UtcTime, date_ymd, spec_date_ymd};
use vstd::prelude::*;

verus! {

/// `field` between double quotes, as it stands as a key in JSON.
pub open spec fn quoted(field: Seq<char>) -> Seq<char> {
    seq!['"'] + field + seq!['"']
}

/// The first index from `i` on of a `,` or a `}`, or the length of `a`.
pub open spec fn stop_from(a: Seq<char>, i: int) -> int
    decreases a.len() - i,
{
    if i < 0 || i >= a.len() {
        a.len() as int
    } else if a[i] == ',' || a[i] == '}' {
        i
    } else {
        stop_from(a, i + 1)
    }
}

/// A value written without quotes: up to the first `,` or `}`, trimmed, stray
/// quotes removed.
pub open spec fn bare_value(a: Seq<char>) -> Seq<char> {
    trim_by(trim(a.take(stop_from(a, 0))), TrimSet::Only('"'))
}

/// The value after a key's colon (already trimmed): a quoted string when it
/// opens with a double quote and the quote is closed, else the bare value.
pub open spec fn value_text(a: Seq<char>) -> Seq<char> {
    if a.len() > 0 && a[0] == '"' {
        match find(a.skip(1), seq!['"']) {
            Some(e) => a.skip(1).take(e),
            None => bare_value(a),
        }
    } else {
        bare_value(a)
    }
}

/// The value of the first `"field"` in `text` that a colon follows somewhere after it.
pub open spec fn keyed_value(text: Seq<char>, field: Seq<char>) -> Option<Seq<char>> {
    let pat = quoted(field);
    match find(text, pat) {
        Some(s) => {
            let after_key = text.skip(s + pat.len());
            match find(after_key, seq![':']) {
                Some(c) => Some(value_text(trim(after_key.skip(c + 1)))),
                None => None,
            }
        },
        None => None,
    }
}

/// The first line of `text`, or nothing when it has none.
pub open spec fn first_line(text: Seq<char>) -> Seq<char> {
    if lines(text).len() > 0 {
        lines(text)[0]
    } else {
        Seq::empty()
    }
}

/// A field of a model's JSON-like reply: its keyed value when there is one; else,
/// for `title`, the first line of the reply, trimmed and unquoted; else nothing.
pub open spec fn json_field(text: Seq<char>, field: Seq<char>) -> Seq<char> {
    match keyed_value(text, field) {
        Some(v) => v,
        None => if field == "title"@ {
            trim_by(trim(first_line(text)), TrimSet::Only('"'))
        } else {
            Seq::empty()
        },
    }
}

fn stop_index(a: &Vec<char>) -> (r: usize)
    ensures
        r == stop_from(a@, 0),
        r <= a.len(),
{
    let mut i: usize = 0;
    while i < a.len() && a[i] != ',' && a[i] != '}'
        invariant
            i <= a.len(),
            stop_from(a@, 0) == stop_from(a@, i as int),
        decreases a.len() - i,
    {
        i += 1;
    }
    i
}

fn bare_value_chars(a: &Vec<char>) -> (r: Vec<char>)
    ensures
        r@ == bare_value(a@),
{
    let end = stop_index(a);
    let head = slice_chars(a, 0, end);
    assert(head@ =~= a@.take(end as int));
    let t = trim_chars(&head);
    trim_chars_by(&t, TrimSet::Only('"'))
}

fn value_text_chars(a: &Vec<char>) -> (r: Vec<char>)
    ensures
        r@ == value_text(a@),
{
    if a.len() > 0 && a[0] == '"' {
        let inq = slice_chars(a, 1, a.len());
        assert(inq@ =~= a@.skip(1));
        proof {
            lemma_find_in_bounds(inq@, seq!['"']);
        }
        match find_char(&inq, '"') {
            Some(e) => {
                assert(e < inq.len());
                let v = slice_chars(&inq, 0, e);
                assert(v@ =~= inq@.take(e as int));
                v
            },
            None => bare_value_chars(a),
        }
    } else {
        bare_value_chars(a)
    }
}

/// Reads a field of a model's JSON-like reply, tolerating broken JSON.
pub fn extract_json_field(text: &str, field: &str) -> (r: String)
    ensures
        r@ == json_field(text@, field@),
{
    let t = chars_of(text);
    let mut pat: Vec<char> = Vec::new();
    pat.push('"');
    push_str(&mut pat, field);
    pat.push('"');
    assert(pat@ =~= quoted(field@));
    proof {
        lemma_find_in_bounds(t@, pat@);
    }
    if let Some(s) = find_chars(&t, &pat) {
        assert(s + pat.len() <= t.len());
        let after_key = slice_chars(&t, s + pat.len(), t.len());
        assert(after_key@ =~= t@.skip(s + pat@.len()));
        proof {
            lemma_find_in_bounds(after_key@, seq![':']);
        }
        if let Some(c) = find_char(&after_key, ':') {
            assert(c < after_key.len());
            let rest = slice_chars(&after_key, c + 1, after_key.len());
            assert(rest@ =~= after_key@.skip(c + 1));
            let after_colon = trim_chars(&rest);
            let v = value_text_chars(&after_colon);
            return string_of(&v);
        }
    }
    let f = chars_of(field);
    let title = chars_of("title");
    if chars_eq(&f, &title) {
        let ls = lines_chars(&t);
        let first = if ls.len() > 0 {
            slice_chars(&ls[0], 0, ls[0].len())
        } else {
            Vec::new()
        };
        assert(first@ =~= first_line(t@));
        let trimmed = trim_chars(&first);
        let unq = trim_chars_by(&trimmed, TrimSet::Only('"'));
        string_of(&unq)
    } else {
        String::new()
    }
}

/// The arXiv categories and the label of a quick-search preset.
pub struct PresetConfig {
    pub categories: Vec<String>,
    pub label: String,
}

/// The presets: `robotics`, `ai` and `cv`.
pub open spec fn preset_of(name: Seq<char>) -> Option<(Seq<Seq<char>>, Seq<char>)> {
    if name == "robotics"@ {
        Some((seq!["cs.RO"@, "cs.AI"@, "cs.CV"@, "cs.LG"@], "机器人"@))
    } else if name == "ai"@ {
        Some((seq!["cs.AI"@, "cs.LG"@, "cs.CL"@], "AI/ML"@))
    } else if name == "cv"@ {
        Some((seq!["cs.CV"@, "cs.AI"@], "计算机视觉"@))
    } else {
        None
    }
}

fn string_list(items: &[&str]) -> (r: Vec<String>)
    ensures
        strs(r@) == items@.map_values(|s: &str| s@),
{
    let mut r: Vec<String> = Vec::new();
    let mut i: usize = 0;
    while i < items.len()
        invariant
            i <= items.len(),
            strs(r@) == items@.take(i as int).map_values(|s: &str| s@),
        decreases items.len() - i,
    {
        let ghost before = strs(r@);
        r.push(items[i].to_owned());
        assert(strs(r@) =~= before.push(items@[i as int]@));
        assert(items@.take(i + 1).map_values(|s: &str| s@) =~= items@.take(i as int).map_values(
            |s: &str| s@,
        ).push(items@[i as int]@));
        i += 1;
    }
    assert(items@.take(i as int) =~= items@);
    r
}

/// The preset of a quick search, by its name.
pub fn get_preset(preset: &str) -> (r: Option<PresetConfig>)
    ensures
        match r {
            Some(c) => preset_of(preset@) == Some((strs(c.categories@), c.label@)),
            None => preset_of(preset@) is None,
        },
{
    let name = chars_of(preset);
    if chars_are(&name, "robotics") {
        let items: [&str; 4] = ["cs.RO", "cs.AI", "cs.CV", "cs.LG"];
        let categories = string_list(&items);
        assert(items@.map_values(|s: &str| s@) =~= seq!["cs.RO"@, "cs.AI"@, "cs.CV"@, "cs.LG"@]);
        Some(PresetConfig { categories, label: "机器人".to_owned() })
    } else if chars_are(&name, "ai") {
        let items: [&str; 3] = ["cs.AI", "cs.LG", "cs.CL"];
        let categories = string_list(&items);
        assert(items@.map_values(|s: &str| s@) =~= seq!["cs.AI"@, "cs.LG"@, "cs.CL"@]);
        Some(PresetConfig { categories, label: "AI/ML".to_owned() })
    } else if chars_are(&name, "cv") {
        let items: [&str; 2] = ["cs.CV", "cs.AI"];
        let categories = string_list(&items);
        assert(items@.map_values(|s: &str| s@) =~= seq!["cs.CV"@, "cs.AI"@]);
        Some(PresetConfig { categories, label: "计算机视觉".to_owned() })
    } else {
        None
    }
}

/// How many papers a quick search asks of each category: a quarter of the
/// wanted number, at least two.
pub fn per_category(max: usize) -> (r: usize)
    ensures
        r == if max / 4 >= 2 { max / 4 } else { 2 },
{
    let q = max / 4;
    if q >= 2 {
        q
    } else {
        2
    }
}

/// The parameters of a search.
pub struct SearchQuery {
    pub q: String,
    pub max_results: Option<usize>,
}

/// The parameters of a quick search.
pub struct QuickSearchQuery {
    pub preset: String,
    pub max_results: Option<usize>,
}

impl SearchQuery {
    /// The number of papers wanted: five unless given.
    pub fn limit(&self) -> (r: usize)
        ensures
            r == match self.max_results {
                Some(n) => n,
                None => 5,
            },
    {
        match self.max_results {
            Some(n) => n,
            None => 5,
        }
    }
}

impl QuickSearchQuery {
    /// The number of papers wanted: ten unless given.
    pub fn limit(&self) -> (r: usize)
        ensures
            r == match self.max_results {
                Some(n) => n,
                None => 10,
            },
    {
        match self.max_results {
            Some(n) => n,
            None => 10,
        }
    }
}

/// The preferences of a search: the default ones, with one keyword and the wanted number.
pub open spec fn search_prefs(keyword: Seq<char>, max: usize) -> PreferencesView {
    PreferencesView {
        keywords: seq![keyword],
        categories: Seq::empty(),
        exclude_categories: Seq::empty(),
        fetch_interval_minutes: 60,
        max_papers_per_fetch: max,
        voice_speed_bits: ONE_BITS,
        voice_volume_bits: ONE_BITS,
        llm_provider: "minimax"@,
        speech_provider: "groq_whisper"@,
        synthesizer_provider: "system_say"@,
    }
}

/// The default preferences with `keyword` as the only keyword and `max` papers per fetch.
pub fn search_preferences(keyword: &str, max: usize) -> (p: UserPreferences)
    ensures
        p@ == search_prefs(keyword@, max),
{
    let mut p = UserPreferences::default();
    let mut keywords: Vec<String> = Vec::new();
    keywords.push(keyword.to_owned());
    assert(strs(keywords@) =~= seq![keyword@]);
    p.keywords = keywords;
    p.max_papers_per_fetch = max;
    assert(strs(p.categories@) =~= Seq::<Seq<char>>::empty());
    assert(strs(p.exclude_categories@) =~= Seq::<Seq<char>>::empty());
    p
}

/// A paper as the service returns it.
pub struct PaperResponse {
    pub id: String,
    pub title: String,
    pub authors: Vec<String>,
    pub summary: String,
    /// The publication day, `YYYY-MM-DD`.
    pub published: String,
    pub categories: Vec<String>,
    pub pdf_url: String,
    pub source: String,
    pub venue: Option<String>,
}

/// The content of a returned paper.
#[verifier::ext_equal]
pub struct ResponseView {
    pub id: Seq<char>,
    pub title: Seq<char>,
    pub authors: Seq<Seq<char>>,
    pub summary: Seq<char>,
    pub published: Seq<char>,
    pub categories: Seq<Seq<char>>,
    pub pdf_url: Seq<char>,
    pub source: Seq<char>,
    pub venue: Option<Seq<char>>,
}

impl View for PaperResponse {
    type V = ResponseView;

    open spec fn view(&self) -> ResponseView {
        ResponseView {
            id: self.id@,
            title: self.title@,
            authors: strs(self.authors@),
            summary: self.summary@,
            published: self.published@,
            categories: strs(self.categories@),
            pdf_url: self.pdf_url@,
            source: self.source@,
            venue: opt_str(self.venue),
        }
    }
}

/// A paper as returned: the abstract as summary, the publication day as
/// `YYYY-MM-DD` (empty for a time that has no calendar date).
pub open spec fn response_of(p: PaperView) -> ResponseView {
    ResponseView {
        id: p.id,
        title: p.title,
        authors: p.authors,
        summary: p.abstract_text,
        published: match spec_date_ymd(p.published) {
            Some(d) => d,
            None => Seq::empty(),
        },
        categories: p.categories,
        pdf_url: p.pdf_url,
        source: p.source,
        venue: p.venue,
    }
}

/// The returned form of a list of papers.
pub open spec fn responses_of(ps: Seq<PaperView>) -> Seq<ResponseView> {
    ps.map_values(|p: PaperView| response_of(p))
}

/// A returned paper carries the paper it was made from unchanged: its
/// identifier, title, authors in their order, categories, PDF link, source and
/// venue, with the abstract as its summary.
pub proof fn lemma_response_carries_paper(p: PaperView)
    ensures
        response_of(p).id == p.id,
        response_of(p).title == p.title,
        response_of(p).authors == p.authors,
        response_of(p).summary == p.abstract_text,
        response_of(p).categories == p.categories,
        response_of(p).pdf_url == p.pdf_url,
        response_of(p).source == p.source,
        response_of(p).venue == p.venue,
{
}

/// `r` shows the content of `p`: the same identifier, title, authors,
/// categories, PDF link, source and venue, and `p`'s abstract as summary.
pub open spec fn shows(r: ResponseView, p: PaperView) -> bool {
    &&& r.id == p.id
    &&& r.title == p.title
    &&& r.authors == p.authors
    &&& r.summary == p.abstract_text
    &&& r.categories == p.categories
    &&& r.pdf_url == p.pdf_url
    &&& r.source == p.source
    &&& r.venue == p.venue
}

/// `r` shows one of the papers `ps`.
pub open spec fn shows_one_of(r: ResponseView, ps: Seq<PaperView>) -> bool {
    exists|j: int| 0 <= j < ps.len() && #[trigger] shows(r, ps[j])
}

/// Every paper a search returns, however many are asked for, shows one of the
/// papers searched, unchanged: scoring a paper changes none of what is returned
/// of it.
pub proof fn lemma_search_returns_given_papers(ps: Seq<PaperView>, prefs: PreferencesView, n: nat)
    ensures
        forall|k: int|
            0 <= k < responses_of(at_most(scored(ps, prefs), n as int)).len() ==> shows_one_of(
                #[trigger] responses_of(at_most(scored(ps, prefs), n as int))[k],
                ps,
            ),
{
    lemma_kept_from(ps, prefs);
    let s = scored(ps, prefs);
    let a = at_most(s, n as int);
    let rs = responses_of(a);
    assert forall|k: int| 0 <= k < rs.len() implies shows_one_of(#[trigger] rs[k], ps) by {
        assert(a[k] == s[k]);
        let q = kept(ps, prefs)[k];
        assert(ps.contains(q));
        let j = choose|j: int| 0 <= j < ps.len() && ps[j] == q;
        assert(shows(rs[k], ps[j]));
    }
}

impl PaperResponse {
    pub fn from_paper(p: &Paper) -> (r: PaperResponse)
        ensures
            r@ == response_of(p@),
    {
        let published = match date_ymd(p.published) {
            Some(d) => d,
            None => String::new(),
        };
        PaperResponse {
            id: p.id.clone(),
            title: p.title.clone(),
            authors: copy_strings(&p.authors),
            summary: p.abstract_text.clone(),
            published,
            categories: copy_strings(&p.categories),
            pdf_url: p.pdf_url.clone(),
            source: p.source.clone(),
            venue: copy_opt_string(&p.venue),
        }
    }
}

/// A list of returned papers.
pub struct SearchResponse {
    pub papers: Vec<PaperResponse>,
}

/// The content of a list of returned papers.
pub open spec fn response_views(rs: Seq<PaperResponse>) -> Seq<ResponseView> {
    rs.map_values(|r: PaperResponse| r@)
}

/// At most the first `n` of `s`.
pub open spec fn at_most<A>(s: Seq<A>, n: int) -> Seq<A> {
    if n < s.len() {
        s.take(n)
    } else {
        s
    }
}

impl SearchResponse {
    /// No papers: the answer to a failed search.
    pub fn empty() -> (r: SearchResponse)
        ensures
            r.papers@.len() == 0,
    {
        SearchResponse { papers: Vec::new() }
    }

    /// The first `limit` of the papers, in the returned form.
    pub fn of_papers(papers: &Vec<Paper>, limit: usize) -> (r: SearchResponse)
        ensures
            response_views(r.papers@) == responses_of(at_most(papers_view(papers@), limit as int)),
            r.papers@.len() <= limit,
    {
        let n = if limit < papers.len() {
            limit
        } else {
            papers.len()
        };
        let ghost all = at_most(papers_view(papers@), limit as int);
        assert(all.len() == n);
        let mut out: Vec<PaperResponse> = Vec::new();
        let mut i: usize = 0;
        while i < n
            invariant
                i <= n <= papers.len(),
                all == at_most(papers_view(papers@), limit as int),
                all.len() == n,
                response_views(out@) == responses_of(all.take(i as int)),
            decreases n - i,
        {
            let r = PaperResponse::from_paper(&papers[i]);
            let ghost before = response_views(out@);
            out.push(r);
            assert(all[i as int] == papers@[i as int]@);
            assert(response_views(out@) =~= before.push(response_of(all[i as int])));
            assert(all.take(i + 1) =~= all.take(i as int).push(all[i as int]));
            assert(responses_of(all.take(i + 1)) =~= responses_of(all.take(i as int)).push(
                response_of(all[i as int]),
            ));
            i += 1;
        }
        assert(all.take(n as int) =~= all);
        SearchResponse { papers: out }
    }

    /// The answer to a search for `keyword`: the papers that match it, scored,
    /// in their order; `limit` is the number of papers asked for.
    pub fn of_search(papers: Vec<Paper>, keyword: &str, limit: usize) -> (r: SearchResponse)
        requires
            forall|k: int| 0 <= k < papers@.len() ==> scorable(#[trigger] papers@[k]@, search_prefs(keyword@, limit)),
        ensures
            response_views(r.papers@) == responses_of(scored(papers_view(papers@), search_prefs(keyword@, limit))),
    {
        let prefs = search_preferences(keyword, limit);
        let scored_papers = Filter::filter_and_score(papers, &prefs);
        Self::of_papers(&scored_papers, scored_papers.len())
    }

    /// The answer to a quick search with preset `preset`: the arXiv papers, then
    /// the Semantic Scholar ones, each identifier kept at its first paper; of
    /// those, the ones that match the preset's name, scored, in their order, at
    /// most `limit` of them.
    pub fn of_quick_search(arxiv: Vec<Paper>, scholar: Vec<Paper>, preset: &str, limit: usize) -> (r: SearchResponse)
        requires
            forall|k: int| 0 <= k < arxiv@.len() ==> scorable(#[trigger] arxiv@[k]@, search_prefs(preset@, limit)),
            forall|k: int| 0 <= k < scholar@.len() ==> scorable(#[trigger] scholar@[k]@, search_prefs(preset@, limit)),
        ensures
            response_views(r.papers@) == responses_of(
                at_most(
                    scored(unique_by_id(papers_view(arxiv@) + papers_view(scholar@)), search_prefs(preset@, limit)),
                    limit as int,
                ),
            ),
            r.papers@.len() <= limit,
    {
        let ghost a = papers_view(arxiv@);
        let ghost b = papers_view(scholar@);
        let mut batches: Vec<Vec<Paper>> = Vec::new();
        batches.push(arxiv);
        batches.push(scholar);
        let ghost bs = batches@.map_values(|v: Vec<Paper>| papers_view(v@));
        assert(bs =~= seq![a, b]);
        assert(concat(bs) =~= a + b) by {
            assert(bs.drop_last() =~= seq![a]);
            assert(bs.drop_last().drop_last() =~= Seq::<Seq<PaperView>>::empty());
            assert(concat(bs.drop_last().drop_last()) =~= Seq::<PaperView>::empty());
            assert(concat(bs.drop_last()) =~= a);
        }
        let merged = merge_unique(batches);
        proof {
            lemma_unique_by_id_from(a + b);
        }
        let prefs = search_preferences(preset, limit);
        assert forall|k: int| 0 <= k < merged@.len() implies scorable(#[trigger] merged@[k]@, prefs@) by {
            assert(papers_view(merged@)[k] == merged@[k]@);
            let j = choose|j: int| 0 <= j < (a + b).len() && (a + b)[j] == papers_view(merged@)[k];
            if j < a.len() {
                assert(a[j] == arxiv@[j]@);
            } else {
                assert(b[j - a.len()] == scholar@[j - a.len()]@);
            }
        }
        let scored_papers = Filter::filter_and_score(merged, &prefs);
        Self::of_papers(&scored_papers, limit)
    }
}

/// A request for the summary of a paper.
pub struct SummarizeRequest {
    pub paper_id: String,
    pub title: String,
    pub authors: Vec<String>,
    pub summary: String,
}

impl SummarizeRequest {
    /// The paper the request describes, from arXiv, with its abstract and the
    /// given times.
    pub fn into_paper(self, published: UtcTime, updated: UtcTime) -> (p: Paper)
        ensures
            p@ == (PaperView {
                id: self.paper_id@,
                title: self.title@,
                authors: strs(self.authors@),
                abstract_text: self.summary@,
                categories: Seq::empty(),
                published,
                updated,
                pdf_url: Seq::empty(),
                relevance_score: None,
                summary: None,
                source: "arxiv"@,
                venue: None,
                is_read: false,
            }),
    {
        let categories: Vec<String> = Vec::new();
        assert(strs(categories@) =~= Seq::<Seq<char>>::empty());
        let p = Paper {
            id: self.paper_id,
            title: self.title,
            authors: self.authors,
            abstract_text: self.summary,
            categories,
            published,
            updated,
            pdf_url: String::new(),
            relevance_score: None,
            summary: None,
            source: "arxiv".to_owned(),
            venue: None,
            is_read: false,
        };
        p
    }
}

/// A generated summary, or why there is none.
pub struct SummarizeResponse {
    pub short_summary: String,
    pub detailed_summary: String,
    pub key_points: Vec<String>,
}

impl SummarizeResponse {
    /// The answer when no API key is configured.
    pub fn no_key() -> (r: SummarizeResponse)
        ensures
            r.short_summary@.len() == 0,
            r.detailed_summary@ == "API key not configured"@,
            r.key_points@.len() == 0,
    {
        SummarizeResponse {
            short_summary: String::new(),
            detailed_summary: "API key not configured".to_owned(),
            key_points: Vec::new(),
        }
    }

    /// The answer when the model gave no summary.
    pub fn failed() -> (r: SummarizeResponse)
        ensures
            r.short_summary@.len() == 0,
            r.detailed_summary@ == "Failed to generate summary"@,
            r.key_points@.len() == 0,
    {
        SummarizeResponse {
            short_summary: String::new(),
            detailed_summary: "Failed to generate summary".to_owned(),
            key_points: Vec::new(),
        }
    }

    /// The answer once the model was asked: its summary, or the failure.
    pub fn of_outcome(summary: Option<Summary>) -> (r: SummarizeResponse)
        ensures
            match summary {
                Some(s) => r.short_summary@ == s@.short_summary && r.detailed_summary@ == s@.detailed_summary
                    && strs(r.key_points@) == s@.key_points,
                None => r.short_summary@.len() == 0 && r.detailed_summary@ == "Failed to generate summary"@
                    && r.key_points@.len() == 0,
            },
    {
        match summary {
            Some(s) => Self::of_summary(s),
            None => Self::failed(),
        }
    }

    /// The answer carrying a summary.
    pub fn of_summary(s: Summary) -> (r: SummarizeResponse)
        ensures
            r.short_summary@ == s@.short_summary,
            r.detailed_summary@ == s@.detailed_summary,
            strs(r.key_points@) == s@.key_points,
    {
        SummarizeResponse {
            short_summary: s.short_summary,
            detailed_summary: s.detailed_summary,
            key_points: s.key_points,
        }
    }
}

/// A text to translate.
pub struct TranslateRequest {
    pub text: String,
}

/// A translated query, with the original.
pub struct TranslateResponse {
    pub translated: String,
    pub original: String,
    pub success: bool,
}

/// A reply of a model without its reasoning and surrounding whitespace.
pub open spec fn cleaned_reply(reply: Seq<char>) -> Seq<char> {
    trim(after_think(reply))
}

/// The answer of a model without its reasoning, trimmed.
pub fn clean_reply(reply: &str) -> (r: String)
    ensures
        r@ == cleaned_reply(reply@),
{
    let answer = strip_think(reply);
    let v = chars_of(answer.as_str());
    string_of(&trim_chars(&v))
}

impl TranslateResponse {
    /// The text handed back unchanged: no key, or the model failed.
    pub fn untranslated(text: String) -> (r: TranslateResponse)
        ensures
            r.translated@ == text@,
            r.original@ == text@,
            !r.success,
    {
        TranslateResponse { translated: text.clone(), original: text, success: false }
    }

    /// The answer once the model was asked: its reply as the translation, or
    /// the text unchanged when it failed.
    pub fn of_outcome(reply: Option<&str>, text: String) -> (r: TranslateResponse)
        ensures
            r.original@ == text@,
            r.success == reply is Some,
            r.translated@ == match reply {
                Some(t) => cleaned_reply(t@),
                None => text@,
            },
    {
        match reply {
            Some(t) => Self::of_reply(t, text),
            None => Self::untranslated(text),
        }
    }

    /// The model's reply as the translation of `text`.
    pub fn of_reply(reply: &str, text: String) -> (r: TranslateResponse)
        ensures
            r.translated@ == cleaned_reply(reply@),
            r.original@ == text@,
            r.success,
    {
        TranslateResponse { translated: clean_reply(reply), original: text, success: true }
    }
}

/// A paper's title and abstract to translate.
pub struct TranslatePaperRequest {
    pub title: String,
    pub abstract_text: String,
}

/// A paper's title and abstract in Chinese.
pub struct TranslatePaperResponse {
    pub title_cn: String,
    pub abstract_cn: String,
    pub success: bool,
}

impl TranslatePaperResponse {
    /// No translation: no key, or the model failed.
    pub fn failed() -> (r: TranslatePaperResponse)
        ensures
            r.title_cn@.len() == 0,
            r.abstract_cn@.len() == 0,
            !r.success,
    {
        TranslatePaperResponse { title_cn: String::new(), abstract_cn: String::new(), success: false }
    }

    /// The answer once the model was asked: the title and abstract of its
    /// reply, or nothing when it failed.
    pub fn of_outcome(reply: Option<&str>) -> (r: TranslatePaperResponse)
        ensures
            r.success == reply is Some,
            r.title_cn@ == match reply {
                Some(t) => json_field(after_think(t@), "title"@),
                None => Seq::empty(),
            },
            r.abstract_cn@ == match reply {
                Some(t) => json_field(after_think(t@), "abstract"@),
                None => Seq::empty(),
            },
    {
        match reply {
            Some(t) => Self::of_reply(t),
            None => Self::failed(),
        }
    }

    /// The title and abstract read from the model's reply, after its reasoning.
    pub fn of_reply(reply: &str) -> (r: TranslatePaperResponse)
        ensures
            r.title_cn@ == json_field(after_think(reply@), "title"@),
            r.abstract_cn@ == json_field(after_think(reply@), "abstract"@),
            r.success,
    {
        let answer = strip_think(reply);
        TranslatePaperResponse {
            title_cn: extract_json_field(answer.as_str(), "title"),
            abstract_cn: extract_json_field(answer.as_str(), "abstract"),
            success: true,
        }
    }
}

/// The two kinds of language-model provider.
#[derive(Clone, Copy, Debug, PartialEq, Eq, Structural)]
pub enum ProviderKind {
    MiniMax,
    OpenAi,
}

/// The provider the configuration selects: MiniMax when its provider is
/// `minimax`, else an OpenAI-compatible one.
pub open spec fn provider_of(provider: Seq<char>) -> ProviderKind {
    if provider == "minimax"@ {
        ProviderKind::MiniMax
    } else {
        ProviderKind::OpenAi
    }
}

/// The provider and its settings for the service's configuration; a missing key
/// is the empty one.
pub fn create_llm(config: &ApiConfig) -> (r: (ProviderKind, LlmConfig))
    ensures
        r.0 == provider_of(config.llm_provider@),
        r.1.provider_type@ == config.llm_provider@,
        r.1.api_key@ == match config.api_key {
            Some(k) => k@,
            None => Seq::empty(),
        },
        r.1.model@ == config.llm_model@,
        r.1.base_url matches Some(b) && b@ == config.llm_base_url@,
{
    let llm_config = LlmConfig {
        provider_type: config.llm_provider.clone(),
        api_key: match &config.api_key {
            Some(k) => k.clone(),
            None => String::new(),
        },
        model: config.llm_model.clone(),
        base_url: Some(config.llm_base_url.clone()),
    };
    let name = chars_of(config.llm_provider.as_str());
    let kind = if chars_are(&name, "minimax") {
        ProviderKind::MiniMax
    } else {
        ProviderKind::OpenAi
    };
    (kind, llm_config)
}

/// The model the service asks: none without an API key, else the provider and
/// the settings `create_llm` gives.
pub fn model_of(config: &ApiConfig) -> (r: Option<(ProviderKind, LlmConfig)>)
    ensures
        match r {
            None => config.api_key is None,
            Some((kind, c)) => {
                &&& config.api_key matches Some(k) && c.api_key@ == k@
                &&& kind == provider_of(config.llm_provider@)
                &&& c.provider_type@ == config.llm_provider@
                &&& c.model@ == config.llm_model@
                &&& c.base_url matches Some(b) && b@ == config.llm_base_url@
            },
        },
{
    if config.api_key.is_none() {
        None
    } else {
        Some(create_llm(config))
    }
}

} // verus!
