//! Papers, their generated summaries, the user's preferences and audio buffers.

use crate::time::{now, UtcTime};
use vstd::prelude::*;

verus! {

/// The characters of each string of a sequence.
pub open spec fn strs(v: Seq<String>) -> Seq<Seq<char>> {
    v.map_values(|s: String| s@)
}

/// A copy of a list of strings.
pub fn copy_strings(v: &Vec<String>) -> (r: Vec<String>)
    ensures
        r@ == v@,
{
    let mut r: Vec<String> = Vec::new();
    let mut i: usize = 0;
    while i < v.len()
        invariant
            i <= v.len(),
            r@ == v@.take(i as int),
        decreases v.len() - i,
    {
        r.push(v[i].clone());
        i += 1;
        assert(r@ =~= v@.take(i as int));
    }
    assert(v@.take(v@.len() as int) =~= v@);
    r
}

/// A copy of an optional string.
pub fn copy_opt_string(v: &Option<String>) -> (r: Option<String>)
    ensures
        r == *v,
{
    match v {
        Some(s) => Some(s.clone()),
        None => None,
    }
}

/// A summary of a paper written by a language model.
pub struct Summary {
    pub id: String,
    pub paper_id: String,
    /// One sentence, for reading aloud.
    pub short_summary: String,
    pub detailed_summary: String,
    pub key_points: Vec<String>,
    pub generated_at: UtcTime,
    /// The provider that wrote it: `openai` or `minimax`.
    pub provider: String,
}

/// The content of a summary.
#[verifier::ext_equal]
pub struct SummaryView {
    pub id: Seq<char>,
    pub paper_id: Seq<char>,
    pub short_summary: Seq<char>,
    pub detailed_summary: Seq<char>,
    pub key_points: Seq<Seq<char>>,
    pub generated_at: UtcTime,
    pub provider: Seq<char>,
}

impl View for Summary {
    type V = SummaryView;

    open spec fn view(&self) -> SummaryView {
        SummaryView {
            id: self.id@,
            paper_id: self.paper_id@,
            short_summary: self.short_summary@,
            detailed_summary: self.detailed_summary@,
            key_points: strs(self.key_points@),
            generated_at: self.generated_at,
            provider: self.provider@,
        }
    }
}

impl Summary {
    pub fn copy(&self) -> (r: Summary)
        ensures
            r@ == self@,
    {
        Summary {
            id: self.id.clone(),
            paper_id: self.paper_id.clone(),
            short_summary: self.short_summary.clone(),
            detailed_summary: self.detailed_summary.clone(),
            key_points: copy_strings(&self.key_points),
            generated_at: self.generated_at,
            provider: self.provider.clone(),
        }
    }
}

/// A paper from arXiv or Semantic Scholar.
pub struct Paper {
    /// The arXiv identifier (`2401.12345`), or the Semantic Scholar one.
    pub id: String,
    pub title: String,
    pub authors: Vec<String>,
    pub abstract_text: String,
    /// Category labels such as `cs.RO`.
    pub categories: Vec<String>,
    pub published: UtcTime,
    pub updated: UtcTime,
    pub pdf_url: String,
    /// Relevance in whole points.
    pub relevance_score: Option<i64>,
    pub summary: Option<Summary>,
    /// `arxiv` or `semantic_scholar`.
    pub source: String,
    /// Journal or conference, known for Semantic Scholar papers.
    pub venue: Option<String>,
    pub is_read: bool,
}

/// The content of a paper.
#[verifier::ext_equal]
pub struct PaperView {
    pub id: Seq<char>,
    pub title: Seq<char>,
    pub authors: Seq<Seq<char>>,
    pub abstract_text: Seq<char>,
    pub categories: Seq<Seq<char>>,
    pub published: UtcTime,
    pub updated: UtcTime,
    pub pdf_url: Seq<char>,
    pub relevance_score: Option<i64>,
    pub summary: Option<SummaryView>,
    pub source: Seq<char>,
    pub venue: Option<Seq<char>>,
    pub is_read: bool,
}

/// The characters of an optional string.
pub open spec fn opt_str(s: Option<String>) -> Option<Seq<char>> {
    match s {
        Some(t) => Some(t@),
        None => None,
    }
}

impl View for Paper {
    type V = PaperView;

    open spec fn view(&self) -> PaperView {
        PaperView {
            id: self.id@,
            title: self.title@,
            authors: strs(self.authors@),
            abstract_text: self.abstract_text@,
            categories: strs(self.categories@),
            published: self.published,
            updated: self.updated,
            pdf_url: self.pdf_url@,
            relevance_score: self.relevance_score,
            summary: match self.summary {
                Some(s) => Some(s@),
                None => None,
            },
            source: self.source@,
            venue: opt_str(self.venue),
            is_read: self.is_read,
        }
    }
}

/// The contents of a list of papers.
pub open spec fn papers_view(v: Seq<Paper>) -> Seq<PaperView> {
    v.map_values(|p: Paper| p@)
}

impl Paper {
    /// A paper with only an identifier and a title, stamped with time `at`.
    pub fn new_at(id: String, title: String, at: UtcTime) -> (p: Paper)
        ensures
            p.id@ == id@,
            p.title@ == title@,
            p.authors@.len() == 0,
            p.abstract_text@.len() == 0,
            p.categories@.len() == 0,
            p.published == at,
            p.updated == at,
            p.pdf_url@.len() == 0,
            p.relevance_score is None,
            p.summary is None,
            p.source@ == "arxiv"@,
            p.venue is None,
            !p.is_read,
    {
        Paper {
            id,
            title,
            authors: Vec::new(),
            abstract_text: String::new(),
            categories: Vec::new(),
            published: at,
            updated: at,
            pdf_url: String::new(),
            relevance_score: None,
            summary: None,
            source: "arxiv".to_owned(),
            venue: None,
            is_read: false,
        }
    }

    /// A paper with only an identifier and a title, stamped with the current time (the start of 1970 when the clock reads earlier).
    pub fn new(id: String, title: String) -> (p: Paper)
        ensures
            p.id@ == id@,
            p.title@ == title@,
            p.authors@.len() == 0,
            p.abstract_text@.len() == 0,
            p.categories@.len() == 0,
            p.published == p.updated,
            p.pdf_url@.len() == 0,
            p.relevance_score is None,
            p.summary is None,
            p.source@ == "arxiv"@,
            p.venue is None,
            !p.is_read,
    {
        let at = now();
        Paper::new_at(id, title, at)
    }

    pub fn copy(&self) -> (r: Paper)
        ensures
            r@ == self@,
    {
        Paper {
            id: self.id.clone(),
            title: self.title.clone(),
            authors: copy_strings(&self.authors),
            abstract_text: self.abstract_text.clone(),
            categories: copy_strings(&self.categories),
            published: self.published,
            updated: self.updated,
            pdf_url: self.pdf_url.clone(),
            relevance_score: self.relevance_score,
            summary: match &self.summary {
                Some(s) => Some(s.copy()),
                None => None,
            },
            source: self.source.clone(),
            venue: copy_opt_string(&self.venue),
            is_read: self.is_read,
        }
    }
}

/// The bit pattern of the `f64` value 1.0.
pub const ONE_BITS: u64 = 0x3FF0_0000_0000_0000;

/// What the user follows and how papers are fetched and read aloud.
pub struct UserPreferences {
    pub keywords: Vec<String>,
    pub categories: Vec<String>,
    pub exclude_categories: Vec<String>,
    /// Minutes between fetches.
    pub fetch_interval_minutes: u64,
    pub max_papers_per_fetch: usize,
    /// Speech rate (0.5 - 2.0), as the bit pattern of its `f64` value.
    pub voice_speed_bits: u64,
    /// Volume (0.0 - 1.0), as the bit pattern of its `f64` value.
    pub voice_volume_bits: u64,
    pub llm_provider: String,
    pub speech_provider: String,
    pub synthesizer_provider: String,
}

/// The content of a set of preferences.
#[verifier::ext_equal]
pub struct PreferencesView {
    pub keywords: Seq<Seq<char>>,
    pub categories: Seq<Seq<char>>,
    pub exclude_categories: Seq<Seq<char>>,
    pub fetch_interval_minutes: u64,
    pub max_papers_per_fetch: usize,
    pub voice_speed_bits: u64,
    pub voice_volume_bits: u64,
    pub llm_provider: Seq<char>,
    pub speech_provider: Seq<char>,
    pub synthesizer_provider: Seq<char>,
}

impl View for UserPreferences {
    type V = PreferencesView;

    open spec fn view(&self) -> PreferencesView {
        PreferencesView {
            keywords: strs(self.keywords@),
            categories: strs(self.categories@),
            exclude_categories: strs(self.exclude_categories@),
            fetch_interval_minutes: self.fetch_interval_minutes,
            max_papers_per_fetch: self.max_papers_per_fetch,
            voice_speed_bits: self.voice_speed_bits,
            voice_volume_bits: self.voice_volume_bits,
            llm_provider: self.llm_provider@,
            speech_provider: self.speech_provider@,
            synthesizer_provider: self.synthesizer_provider@,
        }
    }
}

impl UserPreferences {
    pub fn copy(&self) -> (r: UserPreferences)
        ensures
            r@ == self@,
    {
        UserPreferences {
            keywords: copy_strings(&self.keywords),
            categories: copy_strings(&self.categories),
            exclude_categories: copy_strings(&self.exclude_categories),
            fetch_interval_minutes: self.fetch_interval_minutes,
            max_papers_per_fetch: self.max_papers_per_fetch,
            voice_speed_bits: self.voice_speed_bits,
            voice_volume_bits: self.voice_volume_bits,
            llm_provider: self.llm_provider.clone(),
            speech_provider: self.speech_provider.clone(),
            synthesizer_provider: self.synthesizer_provider.clone(),
        }
    }

    /// The defaults: nothing followed, hourly fetches of five papers, speed and
    /// volume 1.0, MiniMax for text, Groq Whisper for recognition and the system
    /// voice for speech.
    pub open spec fn is_default(p: UserPreferences) -> bool {
        &&& p.keywords@.len() == 0
        &&& p.categories@.len() == 0
        &&& p.exclude_categories@.len() == 0
        &&& p.fetch_interval_minutes == 60
        &&& p.max_papers_per_fetch == 5
        &&& p.voice_speed_bits == ONE_BITS
        &&& p.voice_volume_bits == ONE_BITS
        &&& p.llm_provider@ == "minimax"@
        &&& p.speech_provider@ == "groq_whisper"@
        &&& p.synthesizer_provider@ == "system_say"@
    }
}

impl Default for UserPreferences {
    fn default() -> (p: UserPreferences)
        ensures
            UserPreferences::is_default(p),
    {
        UserPreferences {
            keywords: Vec::new(),
            categories: Vec::new(),
            exclude_categories: Vec::new(),
            fetch_interval_minutes: 60,
            max_papers_per_fetch: 5,
            voice_speed_bits: ONE_BITS,
            voice_volume_bits: ONE_BITS,
            llm_provider: "minimax".to_owned(),
            speech_provider: "groq_whisper".to_owned(),
            synthesizer_provider: "system_say".to_owned(),
        }
    }
}

/// Audio samples.
pub struct AudioData {
    pub sample_rate: u32,
    pub channels: u16,
    pub samples: Vec<i16>,
}

impl AudioData {
    /// An empty buffer with the given format.
    pub fn new(sample_rate: u32, channels: u16) -> (a: AudioData)
        ensures
            a.sample_rate == sample_rate,
            a.channels == channels,
            a.samples@.len() == 0,
    {
        AudioData { sample_rate, channels, samples: Vec::new() }
    }
}

} // verus!
