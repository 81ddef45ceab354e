//! The rows the database stores, and how papers, summaries and preferences
//! become rows and come back from them. Lists are stored as JSON text, times
//! as whole seconds since 1970.

use crate::paper::{Paper, PaperView, PreferencesView, Summary, SummaryView, UserPreferences, strs};
use crate::time::UtcTime;
use vstd::prelude::*;

verus! {

/// What `serde_json::from_str::<Vec<String>>` yields for a text: `None` when the
/// text is not a JSON array of strings.
pub uninterp spec fn spec_json_string_list(s: Seq<char>) -> Option<Seq<Seq<char>>>;

/// What `serde_json::to_string` yields for a list of strings.
pub uninterp spec fn spec_string_list_json(v: Seq<Seq<char>>) -> Option<Seq<char>>;

/// The seconds chrono can hold: from the first second of 1 January 262144 BCE
/// (`NaiveDate::MIN`) to the last second of 31 December 262142 CE (`NaiveDate::MAX`).
pub open spec fn timestamp_in_range(secs: i64) -> bool {
    -8_334_601_228_800 <= secs <= 8_210_266_876_799
}

/// Calls `serde_json::from_str::<Vec<String>>`; the result is named
/// `spec_json_string_list` of the text.
#[verifier::external_body]
fn json_string_list(s: &str) -> (r: Option<Vec<String>>)
    ensures
        match r {
            Some(v) => spec_json_string_list(s@) == Some(strs(v@)),
            None => spec_json_string_list(s@) is None,
        },
{
    serde_json::from_str::<Vec<String>>(s).ok()
}

/// Calls `serde_json::to_string` on a list of strings; the result is named
/// `spec_string_list_json` of the list. The contract also claims, from
/// serde_json's source, that the call succeeds (its only errors come from the
/// writer, a `Vec` that never fails, and from serializing, which for strings
/// never fails) and that `serde_json::from_str::<Vec<String>>` reads the text it
/// writes back as the same strings (each is written as an escaped JSON string).
#[verifier::external_body]
fn string_list_json(v: &Vec<String>) -> (r: Option<String>)
    ensures
        r is Some,
        r matches Some(s) ==> spec_string_list_json(strs(v@)) == Some(s@),
        r matches Some(s) ==> spec_json_string_list(s@) == Some(strs(v@)),
{
    serde_json::to_string(v).ok()
}

/// Calls `chrono::DateTime::from_timestamp(secs, 0)`. As chrono documents, it
/// gives `None` on seconds outside its range (`NaiveDate::MIN` to
/// `NaiveDate::MAX`), and a time it gives has those seconds
/// (`timestamp`) and no nanoseconds (`timestamp_subsec_nanos`).
#[verifier::external_body]
fn from_timestamp(secs: i64) -> (r: Option<UtcTime>)
    ensures
        r == if timestamp_in_range(secs) {
            Some(UtcTime { secs, nanos: 0 })
        } else {
            None
        },
{
    match chrono::DateTime::from_timestamp(secs, 0) {
        Some(u) => Some(UtcTime { secs: u.timestamp(), nanos: u.timestamp_subsec_nanos() }),
        None => None,
    }
}

/// A stored list: the decoded JSON, or nothing when it cannot be read.
pub open spec fn stored_list(s: Seq<char>) -> Seq<Seq<char>> {
    match spec_json_string_list(s) {
        Some(l) => l,
        None => Seq::empty(),
    }
}

/// A list as stored: its JSON, or the empty text when it cannot be written.
pub open spec fn list_text(v: Seq<Seq<char>>) -> Seq<char> {
    match spec_string_list_json(v) {
        Some(s) => s,
        None => Seq::empty(),
    }
}

/// A stored time: the second it names, or 1970-01-01T00:00:00Z when out of range.
pub open spec fn stored_time(secs: i64) -> UtcTime {
    if timestamp_in_range(secs) {
        UtcTime { secs, nanos: 0 }
    } else {
        UtcTime { secs: 0, nanos: 0 }
    }
}

fn read_list(s: &str) -> (r: Vec<String>)
    ensures
        strs(r@) == stored_list(s@),
{
    match json_string_list(s) {
        Some(v) => v,
        None => {
            let v: Vec<String> = Vec::new();
            assert(strs(v@) =~= Seq::<Seq<char>>::empty());
            v
        },
    }
}

fn write_list(v: &Vec<String>) -> (r: String)
    ensures
        r@ == list_text(strs(v@)),
        stored_list(r@) == strs(v@),
{
    match string_list_json(v) {
        Some(s) => s,
        None => String::new(),
    }
}

fn read_time(secs: i64) -> (r: UtcTime)
    ensures
        r == stored_time(secs),
{
    match from_timestamp(secs) {
        Some(t) => t,
        None => UtcTime { secs: 0, nanos: 0 },
    }
}

/// A stored paper. The score is in whole points.
pub struct PaperRow {
    pub id: String,
    pub title: String,
    pub authors: String,
    pub abstract_text: String,
    pub categories: String,
    pub published: i64,
    pub updated: i64,
    pub pdf_url: String,
    pub relevance_score: Option<i64>,
    pub is_read: bool,
}

/// The paper of a row; the table keeps neither summary, source nor venue, so a
/// paper read back has no summary, comes from arXiv and has no venue.
pub open spec fn row_paper(
    id: Seq<char>,
    title: Seq<char>,
    authors: Seq<char>,
    abstract_text: Seq<char>,
    categories: Seq<char>,
    published: i64,
    updated: i64,
    pdf_url: Seq<char>,
    relevance_score: Option<i64>,
    is_read: bool,
) -> PaperView {
    PaperView {
        id,
        title,
        authors: stored_list(authors),
        abstract_text,
        categories: stored_list(categories),
        published: stored_time(published),
        updated: stored_time(updated),
        pdf_url,
        relevance_score,
        summary: None,
        source: "arxiv"@,
        venue: None,
        is_read,
    }
}

/// What reading back a stored paper gives: the paper with its times cut to
/// whole seconds, no summary, arXiv as source and no venue.
pub open spec fn stored_paper(p: PaperView) -> PaperView {
    PaperView {
        published: UtcTime { secs: p.published.secs, nanos: 0 },
        updated: UtcTime { secs: p.updated.secs, nanos: 0 },
        summary: None,
        source: "arxiv"@,
        venue: None,
        ..p
    }
}

/// Reading back a row that stores a paper gives the stored form of the paper,
/// when its times are within chrono's range: a row whose lists read back as the
/// paper's lists (as `PaperRow::of_paper` writes them) and whose times are the
/// paper's seconds.
pub proof fn lemma_paper_row_round_trip(p: PaperView, authors: Seq<char>, categories: Seq<char>)
    requires
        stored_list(authors) == p.authors,
        stored_list(categories) == p.categories,
        timestamp_in_range(p.published.secs),
        timestamp_in_range(p.updated.secs),
    ensures
        row_paper(
            p.id,
            p.title,
            authors,
            p.abstract_text,
            categories,
            p.published.secs,
            p.updated.secs,
            p.pdf_url,
            p.relevance_score,
            p.is_read,
        ) == stored_paper(p),
{
}

impl PaperRow {
    /// The row storing a paper.
    pub fn of_paper(p: &Paper) -> (r: PaperRow)
        ensures
            r.id@ == p@.id,
            r.title@ == p@.title,
            r.authors@ == list_text(p@.authors),
            r.abstract_text@ == p@.abstract_text,
            r.categories@ == list_text(p@.categories),
            r.published == p.published.secs,
            r.updated == p.updated.secs,
            r.pdf_url@ == p@.pdf_url,
            r.relevance_score == p.relevance_score,
            r.is_read == p.is_read,
            stored_list(r.authors@) == p@.authors,
            stored_list(r.categories@) == p@.categories,
            timestamp_in_range(p.published.secs) && timestamp_in_range(p.updated.secs) ==> row_paper(
                r.id@,
                r.title@,
                r.authors@,
                r.abstract_text@,
                r.categories@,
                r.published,
                r.updated,
                r.pdf_url@,
                r.relevance_score,
                r.is_read,
            ) == stored_paper(p@),
    {
        PaperRow {
            id: p.id.clone(),
            title: p.title.clone(),
            authors: write_list(&p.authors),
            abstract_text: p.abstract_text.clone(),
            categories: write_list(&p.categories),
            published: p.published.secs,
            updated: p.updated.secs,
            pdf_url: p.pdf_url.clone(),
            relevance_score: p.relevance_score,
            is_read: p.is_read,
        }
    }

    /// The paper a row stores.
    pub fn into_paper(self) -> (p: Paper)
        ensures
            p@ == row_paper(
                self.id@,
                self.title@,
                self.authors@,
                self.abstract_text@,
                self.categories@,
                self.published,
                self.updated,
                self.pdf_url@,
                self.relevance_score,
                self.is_read,
            ),
    {
        let authors = read_list(self.authors.as_str());
        let categories = read_list(self.categories.as_str());
        Paper {
            id: self.id,
            title: self.title,
            authors,
            abstract_text: self.abstract_text,
            categories,
            published: read_time(self.published),
            updated: read_time(self.updated),
            pdf_url: self.pdf_url,
            relevance_score: self.relevance_score,
            summary: None,
            source: "arxiv".to_owned(),
            venue: None,
            is_read: self.is_read,
        }
    }
}

/// A stored summary.
pub struct SummaryRow {
    pub id: String,
    pub paper_id: String,
    pub short_summary: String,
    pub detailed_summary: String,
    pub key_points: String,
    pub generated_at: i64,
    pub provider: String,
}

/// What reading back a stored summary gives: the summary with its time cut to
/// whole seconds.
pub open spec fn stored_summary(s: SummaryView) -> SummaryView {
    SummaryView { generated_at: UtcTime { secs: s.generated_at.secs, nanos: 0 }, ..s }
}

/// Reading back a row that stores a summary gives the stored form of the
/// summary, when its time is within chrono's range.
pub proof fn lemma_summary_row_round_trip(s: SummaryView, key_points: Seq<char>)
    requires
        stored_list(key_points) == s.key_points,
        timestamp_in_range(s.generated_at.secs),
    ensures
        (SummaryView {
            id: s.id,
            paper_id: s.paper_id,
            short_summary: s.short_summary,
            detailed_summary: s.detailed_summary,
            key_points: stored_list(key_points),
            generated_at: stored_time(s.generated_at.secs),
            provider: s.provider,
        }) == stored_summary(s),
{
}

impl SummaryRow {
    /// The row storing a summary.
    pub fn of_summary(s: &Summary) -> (r: SummaryRow)
        ensures
            r.id@ == s@.id,
            r.paper_id@ == s@.paper_id,
            r.short_summary@ == s@.short_summary,
            r.detailed_summary@ == s@.detailed_summary,
            r.key_points@ == list_text(s@.key_points),
            r.generated_at == s.generated_at.secs,
            r.provider@ == s@.provider,
            stored_list(r.key_points@) == s@.key_points,
    {
        SummaryRow {
            id: s.id.clone(),
            paper_id: s.paper_id.clone(),
            short_summary: s.short_summary.clone(),
            detailed_summary: s.detailed_summary.clone(),
            key_points: write_list(&s.key_points),
            generated_at: s.generated_at.secs,
            provider: s.provider.clone(),
        }
    }

    /// The summary a row stores.
    pub fn into_summary(self) -> (s: Summary)
        ensures
            s@ == (SummaryView {
                id: self.id@,
                paper_id: self.paper_id@,
                short_summary: self.short_summary@,
                detailed_summary: self.detailed_summary@,
                key_points: stored_list(self.key_points@),
                generated_at: stored_time(self.generated_at),
                provider: self.provider@,
            }),
    {
        let key_points = read_list(self.key_points.as_str());
        Summary {
            id: self.id,
            paper_id: self.paper_id,
            short_summary: self.short_summary,
            detailed_summary: self.detailed_summary,
            key_points,
            generated_at: read_time(self.generated_at),
            provider: self.provider,
        }
    }
}

/// The stored preferences. Speed and volume are the bit patterns of their `f64` values.
pub struct PreferencesRow {
    pub keywords: String,
    pub categories: String,
    pub exclude_categories: String,
    pub fetch_interval_minutes: i64,
    pub max_papers_per_fetch: i64,
    pub voice_speed_bits: u64,
    pub voice_volume_bits: u64,
    pub llm_provider: String,
    pub speech_provider: String,
    pub synthesizer_provider: String,
}

/// Reading back a row that stores preferences gives the same preferences: a
/// row whose lists read back as the preferences' lists (as
/// `PreferencesRow::of_preferences` writes them) and whose counts are the
/// preferences' counts as signed integers.
pub proof fn lemma_preferences_row_round_trip(
    p: PreferencesView,
    keywords: Seq<char>,
    categories: Seq<char>,
    exclude_categories: Seq<char>,
)
    requires
        stored_list(keywords) == p.keywords,
        stored_list(categories) == p.categories,
        stored_list(exclude_categories) == p.exclude_categories,
    ensures
        (PreferencesView {
            keywords: stored_list(keywords),
            categories: stored_list(categories),
            exclude_categories: stored_list(exclude_categories),
            fetch_interval_minutes: (p.fetch_interval_minutes as i64) as u64,
            max_papers_per_fetch: (p.max_papers_per_fetch as i64) as usize,
            voice_speed_bits: p.voice_speed_bits,
            voice_volume_bits: p.voice_volume_bits,
            llm_provider: p.llm_provider,
            speech_provider: p.speech_provider,
            synthesizer_provider: p.synthesizer_provider,
        }) == p,
{
    let f = p.fetch_interval_minutes;
    let m = p.max_papers_per_fetch;
    assert((f as i64) as u64 == f) by (bit_vector);
    assert((m as i64) as usize == m) by (bit_vector);
}

impl PreferencesRow {
    /// The row storing preferences; the counts are stored as signed integers.
    pub fn of_preferences(p: &UserPreferences) -> (r: PreferencesRow)
        ensures
            r.keywords@ == list_text(p@.keywords),
            r.categories@ == list_text(p@.categories),
            r.exclude_categories@ == list_text(p@.exclude_categories),
            r.fetch_interval_minutes == p.fetch_interval_minutes as i64,
            r.max_papers_per_fetch == p.max_papers_per_fetch as i64,
            r.voice_speed_bits == p.voice_speed_bits,
            r.voice_volume_bits == p.voice_volume_bits,
            r.llm_provider@ == p@.llm_provider,
            r.speech_provider@ == p@.speech_provider,
            r.synthesizer_provider@ == p@.synthesizer_provider,
            stored_list(r.keywords@) == p@.keywords,
            stored_list(r.categories@) == p@.categories,
            stored_list(r.exclude_categories@) == p@.exclude_categories,
    {
        PreferencesRow {
            keywords: write_list(&p.keywords),
            categories: write_list(&p.categories),
            exclude_categories: write_list(&p.exclude_categories),
            fetch_interval_minutes: p.fetch_interval_minutes as i64,
            max_papers_per_fetch: p.max_papers_per_fetch as i64,
            voice_speed_bits: p.voice_speed_bits,
            voice_volume_bits: p.voice_volume_bits,
            llm_provider: p.llm_provider.clone(),
            speech_provider: p.speech_provider.clone(),
            synthesizer_provider: p.synthesizer_provider.clone(),
        }
    }

    /// The preferences a row stores; the counts are read back as unsigned integers.
    pub fn into_preferences(self) -> (p: UserPreferences)
        ensures
            p@ == (PreferencesView {
                keywords: stored_list(self.keywords@),
                categories: stored_list(self.categories@),
                exclude_categories: stored_list(self.exclude_categories@),
                fetch_interval_minutes: self.fetch_interval_minutes as u64,
                max_papers_per_fetch: self.max_papers_per_fetch as usize,
                voice_speed_bits: self.voice_speed_bits,
                voice_volume_bits: self.voice_volume_bits,
                llm_provider: self.llm_provider@,
                speech_provider: self.speech_provider@,
                synthesizer_provider: self.synthesizer_provider@,
            }),
    {
        UserPreferences {
            keywords: read_list(self.keywords.as_str()),
            categories: read_list(self.categories.as_str()),
            exclude_categories: read_list(self.exclude_categories.as_str()),
            fetch_interval_minutes: self.fetch_interval_minutes as u64,
            max_papers_per_fetch: self.max_papers_per_fetch as usize,
            voice_speed_bits: self.voice_speed_bits,
            voice_volume_bits: self.voice_volume_bits,
            llm_provider: self.llm_provider,
            speech_provider: self.speech_provider,
            synthesizer_provider: self.synthesizer_provider,
        }
    }
}

} // verus!
