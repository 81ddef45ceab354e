//! The decisions of the command-line modes: what the chat mode makes of a line
//! of input, and what the fetch mode searches for and keeps.

use crate::filter::{Filter, scorable, scored};
use crate::order::{SortKey, sort_desc, sort_papers};
use crate::paper::{Paper, PaperView, PreferencesView, UserPreferences, papers_view, strs, ONE_BITS};
use crate::time::spec_date_ymd;
use crate::tui::{score_label, score_text};
use crate::text::{
    chars_are, decimal, decimal_chars, join_strings, signed_decimal, signed_decimal_chars, chars_of, contains, find_char, join, join_chars, lemma_find_in_bounds, push_all, push_str,
    replace_char, replace_char_chars, split_char, split_chars, spec_to_lowercase, string_of, to_lowercase,
    trim, trim_chars, views,
};
use vstd::prelude::*;

verus! {

/// A CJK ideograph (unified, extension A or compatibility) or a full-width form.
pub open spec fn is_cjk(c: char) -> bool {
    ||| ('\u{4E00}' <= c && c <= '\u{9FFF}')
    ||| ('\u{3400}' <= c && c <= '\u{4DBF}')
    ||| ('\u{F900}' <= c && c <= '\u{FAFF}')
    ||| ('\u{FF00}' <= c && c <= '\u{FFEF}')
}

/// What a line typed in the chat mode asks for.
pub enum ChatInput {
    /// Nothing but whitespace: ask again.
    Empty,
    /// `quit`, `q` or `退出`: leave.
    Quit,
    /// A topic to search for, trimmed.
    Topic(String),
}

/// The words that end the chat mode.
pub open spec fn is_quit_word(s: Seq<char>) -> bool {
    s == "quit"@ || s == "q"@ || s == "退出"@
}

/// The arXiv query of a topic: every space becomes ` AND `, under `all:`.
pub open spec fn topic_query(topic: Seq<char>) -> Seq<char> {
    "all:"@ + replace_char(topic, ' ', " AND "@)
}

/// The preferences of a chat search: the stored ones, with the typed line as
/// the only keyword and five papers.
pub open spec fn chat_prefs(stored: PreferencesView, input: Seq<char>) -> PreferencesView {
    PreferencesView { keywords: seq![input], max_papers_per_fetch: 5, ..stored }
}

/// An answer that asks for the paper to be read aloud: `y` or `yes`, in any case,
/// around whitespace.
pub open spec fn is_yes(answer: Seq<char>) -> bool {
    let a = spec_to_lowercase(trim(answer));
    a == "y"@ || a == "yes"@
}

/// What the chat mode does with a typed line.
pub enum ChatPlan {
    /// Nothing was typed: ask again.
    AskAgain,
    /// Leave the chat.
    Quit,
    /// Translate the Chinese topic with `prompt`, then search.
    Translate { topic: String, prompt: String },
    /// Search for the topic with `query`; `untranslated` when the topic is
    /// Chinese but no key is set to translate it.
    Search { topic: String, query: String, untranslated: bool },
}

/// What a chat search brought.
pub enum ChatResults {
    /// The search failed.
    Failed,
    /// The search found nothing.
    NoneFound,
    /// The papers that pass the chat preferences, scored, in their order.
    Found(Vec<Paper>),
}

/// The topic holds a Chinese character.
pub open spec fn has_cjk(s: Seq<char>) -> bool {
    exists|i: int| 0 <= i < s.len() && is_cjk(#[trigger] s[i])
}

/// The interactive chat mode.
pub struct ChatCommand;

impl ChatCommand {
    /// The text holds a Chinese character.
    pub fn contains_chinese(s: &str) -> (r: bool)
        ensures
            r == exists|i: int| 0 <= i < s@.len() && is_cjk(#[trigger] s@[i]),
    {
        let v = chars_of(s);
        let mut i: usize = 0;
        while i < v.len()
            invariant
                i <= v.len(),
                v@ == s@,
                forall|j: int| 0 <= j < i ==> !is_cjk(#[trigger] v@[j]),
            decreases v.len() - i,
        {
            let c = v[i];
            if ('\u{4E00}' <= c && c <= '\u{9FFF}') || ('\u{3400}' <= c && c <= '\u{4DBF}') || (
            '\u{F900}' <= c && c <= '\u{FAFF}') || ('\u{FF00}' <= c && c <= '\u{FFEF}') {
                assert(is_cjk(s@[i as int]));
                return true;
            }
            i += 1;
        }
        false
    }

    /// What a typed line asks for.
    pub fn classify(line: &str) -> (r: ChatInput)
        ensures
            match r {
                ChatInput::Empty => trim(line@).len() == 0,
                ChatInput::Quit => is_quit_word(trim(line@)),
                ChatInput::Topic(t) => t@ == trim(line@) && t@.len() > 0 && !is_quit_word(t@),
            },
            trim(line@).len() == 0 ==> r is Empty,
            is_quit_word(trim(line@)) ==> r is Quit,
    {
        let v = chars_of(line);
        let t = trim_chars(&v);
        proof {
            reveal_strlit("quit");
            reveal_strlit("q");
            reveal_strlit("退出");
        }
        if t.len() == 0 {
            return ChatInput::Empty;
        }
        if chars_are(&t, "quit") || chars_are(&t, "q") || chars_are(&t, "退出") {
            return ChatInput::Quit;
        }
        ChatInput::Topic(string_of(&t))
    }

    /// What to do with a typed line, with or without an API key.
    pub fn plan(line: &str, has_key: bool) -> (r: ChatPlan)
        ensures
            match r {
                ChatPlan::AskAgain => trim(line@).len() == 0,
                ChatPlan::Quit => is_quit_word(trim(line@)),
                ChatPlan::Translate { topic, prompt } => {
                    &&& topic@ == trim(line@)
                    &&& topic@.len() > 0 && !is_quit_word(topic@)
                    &&& has_cjk(topic@) && has_key
                    &&& prompt@ == crate::prompt::CHAT_TRANSLATE_INTRO@ + topic@ + crate::prompt::CHAT_TRANSLATE_TAIL@
                },
                ChatPlan::Search { topic, query, untranslated } => {
                    &&& topic@ == trim(line@)
                    &&& topic@.len() > 0 && !is_quit_word(topic@)
                    &&& !(has_cjk(topic@) && has_key)
                    &&& query@ == topic_query(topic@)
                    &&& untranslated == has_cjk(topic@)
                },
            },
            trim(line@).len() == 0 ==> r is AskAgain,
            is_quit_word(trim(line@)) ==> r is Quit,
    {
        match Self::classify(line) {
            ChatInput::Empty => ChatPlan::AskAgain,
            ChatInput::Quit => ChatPlan::Quit,
            ChatInput::Topic(topic) => {
                let chinese = Self::contains_chinese(topic.as_str());
                if chinese && has_key {
                    let prompt = crate::prompt::PromptManager::chat_translation_prompt(topic.as_str());
                    ChatPlan::Translate { topic, prompt }
                } else {
                    let query = Self::search_query(topic.as_str());
                    ChatPlan::Search { topic, query, untranslated: chinese }
                }
            },
        }
    }

    /// The query searched after a translation: of the trimmed reply, or of the
    /// topic itself when the translation failed.
    pub fn query_after_translation(topic: &str, reply: Option<&str>) -> (r: (String, String))
        ensures
            r.0@ == match reply {
                Some(t) => trim(t@),
                None => topic@,
            },
            r.1@ == topic_query(r.0@),
    {
        let searched = match reply {
            Some(t) => Self::translation_of(t),
            None => topic.to_owned(),
        };
        let query = Self::search_query(searched.as_str());
        (searched, query)
    }

    /// What a chat search brought: its failure, no paper at all, or the papers
    /// that pass the stored preferences with the typed line as keyword, scored.
    pub fn results(papers: Option<Vec<Paper>>, stored: &UserPreferences, input: &str) -> (r: ChatResults)
        requires
            papers matches Some(ps) ==> forall|k: int|
                0 <= k < ps@.len() ==> scorable(#[trigger] ps@[k]@, chat_prefs(stored@, input@)),
        ensures
            match r {
                ChatResults::Failed => papers is None,
                ChatResults::NoneFound => papers matches Some(ps) && ps@.len() == 0,
                ChatResults::Found(found) => papers matches Some(ps) && ps@.len() > 0 && papers_view(found@)
                    == scored(papers_view(ps@), chat_prefs(stored@, input@)),
            },
    {
        match papers {
            None => ChatResults::Failed,
            Some(ps) => if ps.len() == 0 {
                ChatResults::NoneFound
            } else {
                let prefs = Self::search_preferences(stored, input);
                ChatResults::Found(Filter::filter_and_score(ps, &prefs))
            },
        }
    }

    /// The model's translation of a topic, trimmed.
    pub fn translation_of(reply: &str) -> (r: String)
        ensures
            r@ == trim(reply@),
    {
        let v = chars_of(reply);
        string_of(&trim_chars(&v))
    }

    /// The arXiv query of a topic.
    pub fn search_query(topic: &str) -> (r: String)
        ensures
            r@ == topic_query(topic@),
    {
        let v = chars_of(topic);
        let rep = chars_of(" AND ");
        let replaced = replace_char_chars(&v, ' ', &rep);
        let mut q = chars_of("all:");
        push_all(&mut q, &replaced);
        string_of(&q)
    }

    /// The preferences a chat search filters with.
    pub fn search_preferences(stored: &UserPreferences, input: &str) -> (p: UserPreferences)
        ensures
            p@ == chat_prefs(stored@, input@),
    {
        let mut p = stored.copy();
        let mut keywords: Vec<String> = Vec::new();
        keywords.push(input.to_owned());
        assert(strs(keywords@) =~= seq![input@]);
        p.keywords = keywords;
        p.max_papers_per_fetch = 5;
        p
    }

    /// The answer to "read it aloud?" is yes.
    pub fn wants_speech(answer: &str) -> (r: bool)
        ensures
            r == is_yes(answer@),
    {
        let v = chars_of(answer);
        let t = string_of(&trim_chars(&v));
        let lower = to_lowercase(t.as_str());
        let l = chars_of(lower.as_str());
        chars_are(&l, "y") || chars_are(&l, "yes")
    }
}

/// The keywords of a comma-separated list, each trimmed.
pub open spec fn keyword_list(s: Seq<char>) -> Seq<Seq<char>> {
    split_char(s, ',').map_values(|k: Seq<char>| trim(k))
}

/// The keywords of a fetch: those given on the command line, else the stored ones, else none.
pub open spec fn fetch_keywords(cli: Option<Seq<char>>, stored: Option<Seq<Seq<char>>>) -> Seq<Seq<char>> {
    match cli {
        Some(s) => keyword_list(s),
        None => match stored {
            Some(k) => k,
            None => Seq::empty(),
        },
    }
}

/// The number of papers of a fetch: the command line's when it is not the
/// default five, else the stored one, else five.
pub open spec fn fetch_count(cli: usize, stored: Option<usize>) -> usize {
    if cli != 5 {
        cli
    } else {
        match stored {
            Some(n) => n,
            None => cli,
        }
    }
}

/// One keyword as an arXiv query term: a fielded term (with a `:`) as it is,
/// else searched in all fields.
pub open spec fn query_term(k: Seq<char>) -> Seq<char> {
    if contains(k, seq![':']) {
        k
    } else {
        "all:"@ + k
    }
}

/// The arXiv query of a fetch: `all` without keywords, else the terms joined by ` OR `.
pub open spec fn fetch_query(keywords: Seq<Seq<char>>) -> Seq<char> {
    if keywords.len() == 0 {
        "all"@
    } else {
        join(keywords.map_values(|k: Seq<char>| query_term(k)), " OR "@)
    }
}

/// The preferences a fetch filters with, and stores: the defaults with its
/// keywords and number of papers.
pub open spec fn fetch_prefs(keywords: Seq<Seq<char>>, max: usize) -> PreferencesView {
    PreferencesView {
        keywords,
        categories: Seq::empty(),
        exclude_categories: Seq::empty(),
        fetch_interval_minutes: 60,
        max_papers_per_fetch: max,
        voice_speed_bits: ONE_BITS,
        voice_volume_bits: ONE_BITS,
        llm_provider: "minimax"@,
        speech_provider: "groq_whisper"@,
        synthesizer_provider: "system_say"@,
    }
}

/// The fetch mode.
pub struct FetchCommand;

impl FetchCommand {
    /// The keywords of a comma-separated list.
    pub fn parse_keywords(s: &str) -> (r: Vec<String>)
        ensures
            strs(r@) == keyword_list(s@),
    {
        let v = chars_of(s);
        let parts = split_chars(&v, ',');
        let ghost pv = views(parts@);
        let mut r: Vec<String> = Vec::new();
        let mut i: usize = 0;
        while i < parts.len()
            invariant
                i <= parts.len(),
                pv == views(parts@),
                strs(r@) == pv.take(i as int).map_values(|k: Seq<char>| trim(k)),
            decreases parts.len() - i,
        {
            let t = trim_chars(&parts[i]);
            let ghost before = strs(r@);
            r.push(string_of(&t));
            assert(strs(r@) =~= before.push(trim(pv[i as int])));
            assert(pv.take(i + 1).map_values(|k: Seq<char>| trim(k)) =~= pv.take(i as int).map_values(
                |k: Seq<char>| trim(k),
            ).push(trim(pv[i as int])));
            i += 1;
        }
        assert(pv.take(i as int) =~= pv);
        r
    }

    /// The keywords to fetch with.
    pub fn choose_keywords(cli: &Option<String>, stored: Option<Vec<String>>) -> (r: Vec<String>)
        ensures
            strs(r@) == fetch_keywords(
                match cli {
                    Some(s) => Some(s@),
                    None => None,
                },
                match stored {
                    Some(k) => Some(strs(k@)),
                    None => None,
                },
            ),
    {
        match cli {
            Some(s) => Self::parse_keywords(s.as_str()),
            None => match stored {
                Some(k) => k,
                None => {
                    let r: Vec<String> = Vec::new();
                    assert(strs(r@) =~= Seq::<Seq<char>>::empty());
                    r
                },
            },
        }
    }

    /// The number of papers to fetch.
    pub fn choose_max_papers(cli: usize, stored: Option<usize>) -> (r: usize)
        ensures
            r == fetch_count(cli, stored),
    {
        if cli != 5 {
            cli
        } else {
            match stored {
                Some(n) => n,
                None => cli,
            }
        }
    }

    /// The arXiv query for the keywords.
    pub fn build_query(keywords: &Vec<String>) -> (r: String)
        ensures
            r@ == fetch_query(strs(keywords@)),
    {
        if keywords.len() == 0 {
            return "all".to_owned();
        }
        let ghost ks = strs(keywords@);
        let mut terms: Vec<Vec<char>> = Vec::new();
        let mut i: usize = 0;
        while i < keywords.len()
            invariant
                i <= keywords.len(),
                ks == strs(keywords@),
                views(terms@) == ks.take(i as int).map_values(|k: Seq<char>| query_term(k)),
            decreases keywords.len() - i,
        {
            let k = chars_of(keywords[i].as_str());
            proof {
                lemma_find_in_bounds(k@, seq![':']);
            }
            let term = if find_char(&k, ':').is_some() {
                k
            } else {
                let mut t = chars_of("all:");
                push_all(&mut t, &k);
                t
            };
            assert(term@ == query_term(ks[i as int]));
            let ghost before = views(terms@);
            terms.push(term);
            assert(views(terms@) =~= before.push(query_term(ks[i as int])));
            assert(ks.take(i + 1).map_values(|k: Seq<char>| query_term(k)) =~= ks.take(i as int).map_values(
                |k: Seq<char>| query_term(k),
            ).push(query_term(ks[i as int])));
            i += 1;
        }
        assert(ks.take(i as int) =~= ks);
        let sep = chars_of(" OR ");
        string_of(&join_chars(&terms, &sep))
    }

    /// The preferences of a fetch.
    pub fn preferences(keywords: &Vec<String>, max: usize) -> (p: UserPreferences)
        ensures
            p@ == fetch_prefs(strs(keywords@), max),
    {
        let mut p = UserPreferences::default();
        p.keywords = crate::paper::copy_strings(keywords);
        p.max_papers_per_fetch = max;
        assert(strs(p.categories@) =~= Seq::<Seq<char>>::empty());
        assert(strs(p.exclude_categories@) =~= Seq::<Seq<char>>::empty());
        p
    }

    /// The preferences the command line gives: its comma-separated keywords
    /// (none when it gives none), its number of papers, defaults otherwise.
    pub fn cli_preferences(keywords: &Option<String>, max_papers: usize) -> (p: UserPreferences)
        ensures
            p@ == fetch_prefs(
                match keywords {
                    Some(s) => keyword_list(s@),
                    None => Seq::empty(),
                },
                max_papers,
            ),
    {
        let ks = match keywords {
            Some(s) => Self::parse_keywords(s.as_str()),
            None => {
                let v: Vec<String> = Vec::new();
                assert(strs(v@) =~= Seq::<Seq<char>>::empty());
                v
            },
        };
        Self::preferences(&ks, max_papers)
    }

    /// What a fetch keeps: nothing (and nothing is saved) when the search found
    /// no paper, else the ranked papers.
    pub fn outcome(papers: Vec<Paper>, prefs: &UserPreferences) -> (r: Option<Vec<Paper>>)
        requires
            forall|k: int| 0 <= k < papers@.len() ==> scorable(#[trigger] papers@[k]@, prefs@),
        ensures
            match r {
                None => papers@.len() == 0,
                Some(ranked) => papers@.len() > 0 && papers_view(ranked@) == sort_desc(
                    scored(papers_view(papers@), prefs@),
                    SortKey::Relevance,
                ),
            },
    {
        if papers.len() == 0 {
            None
        } else {
            Some(Self::rank(papers, prefs))
        }
    }

    /// The fetched papers that pass the preferences, scored, highest score first
    /// (equal scores in their order).
    pub fn rank(papers: Vec<Paper>, prefs: &UserPreferences) -> (r: Vec<Paper>)
        requires
            forall|k: int| 0 <= k < papers@.len() ==> scorable(#[trigger] papers@[k]@, prefs@),
        ensures
            papers_view(r@) == sort_desc(scored(papers_view(papers@), prefs@), SortKey::Relevance),
    {
        let s = Filter::filter_and_score(papers, prefs);
        sort_papers(s, SortKey::Relevance)
    }
}

/// The number of a list entry, counted from one, and a dot.
pub open spec fn entry_number(index: nat) -> Seq<char> {
    decimal(index + 1) + ". "@
}

fn entry_number_chars(index: usize) -> (r: Vec<char>)
    requires
        index < usize::MAX,
    ensures
        r@ == entry_number(index as nat),
{
    let mut t = decimal_chars((index + 1) as u64);
    push_str(&mut t, ". ");
    t
}

/// The lines of a paper in the chat mode's results: number, score (none counts
/// as zero) and title; authors; publication day.
pub open spec fn chat_entry(index: nat, p: PaperView) -> Seq<Seq<char>> {
    seq![
        entry_number(index) + "[评分: "@ + score_text(Some(
            match p.relevance_score {
                Some(s) => s,
                None => 0,
            },
        )) + "] "@ + p.title,
        "   👤 "@ + join(p.authors, ", "@),
        "   📅 "@ + match spec_date_ymd(p.published) {
            Some(d) => d,
            None => Seq::empty(),
        },
    ]
}

/// The lines of a paper in the list mode: number, read status, title and score;
/// identifier; authors.
pub open spec fn list_entry(index: nat, p: PaperView) -> Seq<Seq<char>> {
    seq![
        entry_number(index) + (if p.is_read {
            "[已读]"@
        } else {
            "[未读]"@
        }) + " "@ + p.title + " [评分: "@ + score_text(p.relevance_score) + "]"@,
        "   ID: "@ + p.id,
        "   作者: "@ + join(p.authors, ", "@),
    ]
}

/// The line of a fetched paper: number, score (none counts as zero) and title.
pub open spec fn fetch_entry(index: nat, p: PaperView) -> Seq<char> {
    entry_number(index) + "["@ + signed_decimal(
        match p.relevance_score {
            Some(s) => s as int,
            None => 0,
        },
    ) + "] "@ + p.title
}

impl ChatCommand {
    /// The lines showing the paper at `index` of the results.
    pub fn entry_lines(index: usize, paper: &Paper) -> (r: Vec<String>)
        requires
            index < usize::MAX,
        ensures
            strs(r@) == chat_entry(index as nat, paper@),
    {
        let mut first = entry_number_chars(index);
        push_str(&mut first, "[评分: ");
        let score = match paper.relevance_score {
            Some(s) => s,
            None => 0,
        };
        let label = score_label(Some(score));
        push_str(&mut first, label.as_str());
        push_str(&mut first, "] ");
        push_str(&mut first, paper.title.as_str());
        let mut second = chars_of("   👤 ");
        let authors = join_strings(&paper.authors, ", ");
        push_str(&mut second, authors.as_str());
        let mut third = chars_of("   📅 ");
        match crate::time::date_ymd(paper.published) {
            Some(d) => push_str(&mut third, d.as_str()),
            None => {},
        }
        let mut r: Vec<String> = Vec::new();
        r.push(string_of(&first));
        r.push(string_of(&second));
        r.push(string_of(&third));
        assert(strs(paper.authors@) == paper.authors@.map_values(|a: String| a@));
        assert(strs(r@) =~= chat_entry(index as nat, paper@));
        r
    }
}

/// The speak mode: a paper's summary read aloud, or those of the unread papers.
pub struct SpeakCommand;

impl SpeakCommand {
    /// How many unread papers are read aloud at most.
    pub const UNREAD_LIMIT: usize = 10;
}

/// The subcommands of the command line.
pub enum Commands {
    /// The interactive chat mode (also without a subcommand).
    Chat,
    /// Fetch the newest papers.
    Fetch,
    /// List the unread papers.
    List,
    /// Read a paper aloud, or every unread one.
    Speak { paper_id: Option<String> },
    /// The list view.
    Tui,
}

/// The command line.
pub struct CliArgs {
    /// The configuration file.
    pub config: String,
    /// Read papers aloud.
    pub speak: bool,
    /// Minutes between fetches.
    pub interval: Option<u64>,
    pub minimax_api_key: Option<String>,
    pub groq_api_key: Option<String>,
    pub llm_provider: String,
    pub speech_provider: String,
    pub synthesizer_provider: String,
    /// Comma-separated keywords.
    pub keywords: Option<String>,
    pub max_papers: usize,
    pub command: Option<Commands>,
}

/// The command line and the preferences it gives.
pub struct Settings {
    pub cli: CliArgs,
    pub preferences: UserPreferences,
}

impl Settings {
    /// The settings of a command line: its keywords (none when it gives none)
    /// and its number of papers, the other preferences at their defaults.
    pub fn load(cli: CliArgs) -> (s: Settings)
        ensures
            s.preferences@ == fetch_prefs(
                match cli.keywords {
                    Some(k) => keyword_list(k@),
                    None => Seq::empty(),
                },
                cli.max_papers,
            ),
            s.cli == cli,
    {
        let preferences = FetchCommand::cli_preferences(&cli.keywords, cli.max_papers);
        Settings { cli, preferences }
    }
}

/// The list mode.
pub struct ListCommand;

impl ListCommand {
    /// How many papers the list shows.
    pub const LIMIT: usize = 50;

    /// The lines showing the paper at `index` of the list.
    pub fn entry_lines(index: usize, paper: &Paper) -> (r: Vec<String>)
        requires
            index < usize::MAX,
        ensures
            strs(r@) == list_entry(index as nat, paper@),
    {
        let mut first = entry_number_chars(index);
        if paper.is_read {
            push_str(&mut first, "[已读]");
        } else {
            push_str(&mut first, "[未读]");
        }
        push_str(&mut first, " ");
        push_str(&mut first, paper.title.as_str());
        push_str(&mut first, " [评分: ");
        let label = score_label(paper.relevance_score);
        push_str(&mut first, label.as_str());
        push_str(&mut first, "]");
        let mut second = chars_of("   ID: ");
        push_str(&mut second, paper.id.as_str());
        let mut third = chars_of("   作者: ");
        let authors = join_strings(&paper.authors, ", ");
        push_str(&mut third, authors.as_str());
        let mut r: Vec<String> = Vec::new();
        r.push(string_of(&first));
        r.push(string_of(&second));
        r.push(string_of(&third));
        assert(strs(paper.authors@) == paper.authors@.map_values(|a: String| a@));
        assert(strs(r@) =~= list_entry(index as nat, paper@));
        r
    }
}

impl FetchCommand {
    /// The line showing the fetched paper at `index`.
    pub fn entry_line(index: usize, paper: &Paper) -> (r: String)
        requires
            index < usize::MAX,
        ensures
            r@ == fetch_entry(index as nat, paper@),
    {
        let mut t = entry_number_chars(index);
        push_str(&mut t, "[");
        let score = match paper.relevance_score {
            Some(s) => s,
            None => 0,
        };
        let digits = signed_decimal_chars(score);
        push_all(&mut t, &digits);
        push_str(&mut t, "] ");
        push_str(&mut t, paper.title.as_str());
        string_of(&t)
    }
}

} // verus!
