//! The prompts sent to the language models.

use crate::paper::{Paper, PaperView, strs};
use crate::text::{chars_of, join, join_strings, push_str, string_of};
use vstd::prelude::*;

verus! {

pub const SUMMARIZE_INTRO: &'static str = "You are an academic paper analyst. Analyze the following paper and provide:\n1. A one-sentence summary of the core contribution\n2. A detailed analysis (2-3 sentences)\n3. Key findings as a list\n\nTitle: ";
pub const SUMMARIZE_AUTHORS: &'static str = "\nAuthors: ";
pub const SUMMARIZE_ABSTRACT: &'static str = "\nAbstract: ";
pub const SUMMARIZE_TAIL: &'static str = "\n\nRespond in JSON format:\n{\"short_summary\": \"...\", \"detailed_summary\": \"...\", \"key_points\": [\"...\"]}";
pub const VERBALIZE_INTRO: &'static str = "Convert the following academic summary into natural spoken Chinese.\nKeep it concise, suitable for voice reading in 30 seconds.\n\nSummary: ";
pub const RELEVANCE_INTRO: &'static str = "Rate the relevance of this paper to the user's interests on a scale of 0-10.\nUser interests: ";
pub const RELEVANCE_TITLE: &'static str = "\nPaper title: ";
pub const RELEVANCE_ABSTRACT: &'static str = "\nPaper abstract: ";
pub const RELEVANCE_TAIL: &'static str = "\nReturn ONLY a number between 0 and 10.";
pub const CHAT_TRANSLATE_INTRO: &'static str = "Translate the following Chinese text to English. Only return the English translation, no explanations.\n\nChinese: ";
pub const CHAT_TRANSLATE_TAIL: &'static str = "\nEnglish:";
pub const QUERY_TRANSLATE_INTRO: &'static str = "Translate this Chinese academic query into concise English keywords for searching academic papers. Return ONLY the English keywords, no explanation, no punctuation.\n\nChinese: ";
pub const PAPER_TRANSLATE_INTRO: &'static str = "Translate the following academic paper title and abstract into Chinese. Keep technical terms accurate. Return in JSON format: {\"title\": \"中文标题\", \"abstract\": \"中文摘要\"}\n\nTitle: ";
pub const PAPER_TRANSLATE_ABSTRACT: &'static str = "\n\nAbstract: ";

/// The prompt asking for a JSON summary of a paper.
pub open spec fn summarize_text(p: PaperView) -> Seq<char> {
    SUMMARIZE_INTRO@ + p.title + SUMMARIZE_AUTHORS@ + join(p.authors, ", "@) + SUMMARIZE_ABSTRACT@
        + p.abstract_text + SUMMARIZE_TAIL@
}

/// The prompt asking for a spoken version of a summary.
pub open spec fn verbalize_text(summary: Seq<char>) -> Seq<char> {
    VERBALIZE_INTRO@ + summary
}

/// The prompt asking for a relevance score between 0 and 10.
pub open spec fn relevance_text(p: PaperView, interests: Seq<Seq<char>>) -> Seq<char> {
    RELEVANCE_INTRO@ + join(interests, ", "@) + RELEVANCE_TITLE@ + p.title + RELEVANCE_ABSTRACT@
        + p.abstract_text + RELEVANCE_TAIL@
}

/// The prompt templates.
pub struct PromptManager;

impl PromptManager {
    /// The prompt asking for a JSON summary (short summary, detailed summary, key points).
    pub fn summarize_prompt(paper: &Paper) -> (r: String)
        ensures
            r@ == summarize_text(paper@),
    {
        let mut t = chars_of(SUMMARIZE_INTRO);
        push_str(&mut t, paper.title.as_str());
        push_str(&mut t, SUMMARIZE_AUTHORS);
        let authors = join_strings(&paper.authors, ", ");
        push_str(&mut t, authors.as_str());
        push_str(&mut t, SUMMARIZE_ABSTRACT);
        push_str(&mut t, paper.abstract_text.as_str());
        push_str(&mut t, SUMMARIZE_TAIL);
        assert(strs(paper.authors@) == paper.authors@.map_values(|p: String| p@));
        string_of(&t)
    }

    /// The prompt turning a summary into speech-friendly text.
    pub fn verbalize_prompt(summary: &str) -> (r: String)
        ensures
            r@ == verbalize_text(summary@),
    {
        let mut t = chars_of(VERBALIZE_INTRO);
        push_str(&mut t, summary);
        string_of(&t)
    }

    /// The prompt asking how relevant a paper is to the user's interests.
    pub fn relevance_prompt(paper: &Paper, interests: &Vec<String>) -> (r: String)
        ensures
            r@ == relevance_text(paper@, strs(interests@)),
    {
        let mut t = chars_of(RELEVANCE_INTRO);
        let joined = join_strings(interests, ", ");
        push_str(&mut t, joined.as_str());
        push_str(&mut t, RELEVANCE_TITLE);
        push_str(&mut t, paper.title.as_str());
        push_str(&mut t, RELEVANCE_ABSTRACT);
        push_str(&mut t, paper.abstract_text.as_str());
        push_str(&mut t, RELEVANCE_TAIL);
        assert(strs(interests@) == interests@.map_values(|p: String| p@));
        string_of(&t)
    }

    /// The prompt of the chat mode translating a Chinese query into English.
    pub fn chat_translation_prompt(chinese_text: &str) -> (r: String)
        ensures
            r@ == CHAT_TRANSLATE_INTRO@ + chinese_text@ + CHAT_TRANSLATE_TAIL@,
    {
        let mut t = chars_of(CHAT_TRANSLATE_INTRO);
        push_str(&mut t, chinese_text);
        push_str(&mut t, CHAT_TRANSLATE_TAIL);
        string_of(&t)
    }

    /// The prompt translating a Chinese query into English search keywords.
    pub fn query_translation_prompt(text: &str) -> (r: String)
        ensures
            r@ == QUERY_TRANSLATE_INTRO@ + text@,
    {
        let mut t = chars_of(QUERY_TRANSLATE_INTRO);
        push_str(&mut t, text);
        string_of(&t)
    }

    /// The prompt translating a paper's title and abstract into Chinese, as JSON.
    pub fn paper_translation_prompt(title: &str, abstract_text: &str) -> (r: String)
        ensures
            r@ == PAPER_TRANSLATE_INTRO@ + title@ + PAPER_TRANSLATE_ABSTRACT@ + abstract_text@,
    {
        let mut t = chars_of(PAPER_TRANSLATE_INTRO);
        push_str(&mut t, title);
        push_str(&mut t, PAPER_TRANSLATE_ABSTRACT);
        push_str(&mut t, abstract_text);
        string_of(&t)
    }
}

} // verus!
