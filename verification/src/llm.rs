//! What the language-model providers compute around their requests: endpoints,
//! the JSON part of a reply, summaries and identifiers.

use crate::paper::{Summary, strs};
use crate::text::{
    TrimSet, chars_of, decimal, decimal_chars, ends_with, ends_with_chars, find, hex, hex_chars, push_all, push_str, rfind, rfind_char,
    rfind_chars, find_char, slice_chars, string_of,
};
use crate::time::UtcTime;
use vstd::prelude::*;

verus! {

/// How a provider is reached.
pub struct LlmConfig {
    /// `openai` or `minimax`.
    pub provider_type: String,
    pub api_key: String,
    pub model: String,
    pub base_url: Option<String>,
}

/// The MiniMax endpoint used when no base URL is configured.
pub const MINIMAX_BASE: &'static str = "https://api.minimax.chat/v1";

/// The OpenAI endpoint used when no base URL is configured.
pub const OPENAI_BASE: &'static str = "https://api.openai.com";

impl LlmConfig {
    /// The MiniMax configuration of the command-line modes: model `MiniMax-01`
    /// at the MiniMax endpoint.
    pub fn minimax(api_key: &str) -> (c: LlmConfig)
        ensures
            c.provider_type@ == "minimax"@,
            c.api_key@ == api_key@,
            c.model@ == "MiniMax-01"@,
            c.base_url matches Some(b) && b@ == MINIMAX_BASE@,
    {
        LlmConfig {
            provider_type: "minimax".to_owned(),
            api_key: api_key.to_owned(),
            model: "MiniMax-01".to_owned(),
            base_url: Some(MINIMAX_BASE.to_owned()),
        }
    }
}

/// The configured base URL, or `default`.
pub open spec fn base_or(base_url: Option<String>, default: Seq<char>) -> Seq<char> {
    match base_url {
        Some(b) => b@,
        None => default,
    }
}

/// The MiniMax chat endpoint.
pub open spec fn minimax_url(base_url: Option<String>) -> Seq<char> {
    base_or(base_url, MINIMAX_BASE@) + "/text/chatcompletion_pro"@
}

/// The OpenAI-compatible chat endpoint: trailing slashes dropped, `/v1` added
/// unless the base already ends with it.
pub open spec fn openai_url(base_url: Option<String>) -> Seq<char> {
    let base = crate::text::trim_end_by(base_or(base_url, OPENAI_BASE@), TrimSet::Only('/'));
    if ends_with(base, "/v1"@) {
        base + "/chat/completions"@
    } else {
        base + "/v1/chat/completions"@
    }
}

fn base_chars(base_url: &Option<String>, default: &str) -> (r: Vec<char>)
    ensures
        r@ == base_or(*base_url, default@),
{
    match base_url {
        Some(b) => chars_of(b.as_str()),
        None => chars_of(default),
    }
}

/// The URL of a MiniMax chat request.
pub fn minimax_chat_url(config: &LlmConfig) -> (r: String)
    ensures
        r@ == minimax_url(config.base_url),
{
    let mut u = base_chars(&config.base_url, MINIMAX_BASE);
    push_str(&mut u, "/text/chatcompletion_pro");
    string_of(&u)
}

/// The characters of `v` without its trailing `c`s.
fn trim_end_char(v: &Vec<char>, c: char) -> (r: Vec<char>)
    ensures
        r@ == crate::text::trim_end_by(v@, TrimSet::Only(c)),
{
    let mut j = v.len();
    assert(v@.subrange(0, j as int) =~= v@);
    while j > 0 && v[j - 1] == c
        invariant
            j <= v.len(),
            crate::text::trim_end_by(v@, TrimSet::Only(c)) == crate::text::trim_end_by(
                v@.subrange(0, j as int),
                TrimSet::Only(c),
            ),
        decreases j,
    {
        assert(v@.subrange(0, j as int).drop_last() =~= v@.subrange(0, j - 1));
        j -= 1;
    }
    slice_chars(v, 0, j)
}

/// The URL of an OpenAI-compatible chat request.
pub fn openai_chat_url(config: &LlmConfig) -> (r: String)
    ensures
        r@ == openai_url(config.base_url),
{
    let raw = base_chars(&config.base_url, OPENAI_BASE);
    let mut base = trim_end_char(&raw, '/');
    let v1 = chars_of("/v1");
    if ends_with_chars(&base, &v1) {
        push_str(&mut base, "/chat/completions");
    } else {
        push_str(&mut base, "/v1/chat/completions");
    }
    string_of(&base)
}

/// The authorization header value for a key.
pub fn bearer(api_key: &str) -> (r: String)
    ensures
        r@ == "Bearer "@ + api_key@,
{
    let mut t = chars_of("Bearer ");
    push_str(&mut t, api_key);
    string_of(&t)
}

/// The JSON object inside a reply: from its first `{` to its last `}` when it has
/// both, else the whole reply.
pub open spec fn json_part(s: Seq<char>) -> Seq<char> {
    match find(s, seq!['{']) {
        Some(a) => match rfind(s, seq!['}']) {
            Some(b) => s.subrange(a, b + 1),
            None => s,
        },
        None => s,
    }
}

/// The reply can be cut at its braces: a last `}` that comes right before the
/// first `{` cuts out nothing, one further before cannot be cut at.
pub open spec fn json_part_cuttable(s: Seq<char>) -> bool {
    match (find(s, seq!['{']), rfind(s, seq!['}'])) {
        (Some(a), Some(b)) => a <= b + 1,
        _ => true,
    }
}

pub proof fn lemma_rfind_in_bounds(s: Seq<char>, pat: Seq<char>, j: int)
    ensures
        crate::text::rfind_upto(s, pat, j) matches Some(k) ==> 0 <= k && k + pat.len() <= s.len(),
    decreases j + 1,
{
    if j < pat.len() || j > s.len() {
    } else if crate::text::occurs_at(s, j - pat.len(), pat) {
    } else {
        lemma_rfind_in_bounds(s, pat, j - 1);
    }
}

/// The JSON part of a model's reply, from the first `{` to the last `}`.
pub fn json_slice(content: &str) -> (r: String)
    requires
        json_part_cuttable(content@),
    ensures
        r@ == json_part(content@),
{
    let v = chars_of(content);
    proof {
        crate::text::lemma_find_in_bounds(v@, seq!['{']);
        lemma_rfind_in_bounds(v@, seq!['}'], v@.len() as int);
    }
    match find_char(&v, '{') {
        Some(a) => match rfind_char(&v, '}') {
            Some(b) => {
                assert(b < v.len());
                string_of(&slice_chars(&v, a, b + 1))
            },
            None => string_of(&v),
        },
        None => string_of(&v),
    }
}

/// The text after the last `</think>`, or all of it: the answer of a reasoning model.
pub open spec fn after_think(s: Seq<char>) -> Seq<char> {
    match rfind(s, "</think>"@) {
        Some(k) => s.skip(k + 8),
        None => s,
    }
}

/// The answer of a reasoning model: what follows its last `</think>`.
pub fn strip_think(response: &str) -> (r: String)
    ensures
        r@ == after_think(response@),
{
    let v = chars_of(response);
    let tag = chars_of("</think>");
    proof {
        reveal_strlit("</think>");
        lemma_rfind_in_bounds(v@, tag@, v@.len() as int);
    }
    match rfind_chars(&v, &tag) {
        Some(k) => {
            assert(k + tag.len() <= v.len());
            let r = slice_chars(&v, k + 8, v.len());
            assert(r@ =~= v@.skip(k + 8));
            string_of(&r)
        },
        None => string_of(&v),
    }
}

/// The summary made of the fields a model returned; absent fields are empty.
pub fn summary_from_fields(
    id: String,
    paper_id: &str,
    short_summary: Option<String>,
    detailed_summary: Option<String>,
    key_points: Option<Vec<String>>,
    generated_at: UtcTime,
    provider: &str,
) -> (s: Summary)
    ensures
        s.id == id,
        s.paper_id@ == paper_id@,
        s.short_summary@ == match short_summary {
            Some(t) => t@,
            None => Seq::empty(),
        },
        s.detailed_summary@ == match detailed_summary {
            Some(t) => t@,
            None => Seq::empty(),
        },
        strs(s.key_points@) == match key_points {
            Some(k) => strs(k@),
            None => Seq::empty(),
        },
        s.generated_at == generated_at,
        s.provider@ == provider@,
{
    let key_points = match key_points {
        Some(k) => k,
        None => {
            let e: Vec<String> = Vec::new();
            assert(strs(e@) =~= Seq::empty());
            e
        },
    };
    Summary {
        id,
        paper_id: paper_id.to_owned(),
        short_summary: match short_summary {
            Some(t) => t,
            None => String::new(),
        },
        detailed_summary: match detailed_summary {
            Some(t) => t,
            None => String::new(),
        },
        key_points,
        generated_at,
        provider: provider.to_owned(),
    }
}

/// How many bytes `c` takes in UTF-8.
pub open spec fn utf8_len(c: char) -> nat {
    if '\u{80}' > c {
        1
    } else if '\u{800}' > c {
        2
    } else if '\u{10000}' > c {
        3
    } else {
        4
    }
}

/// How many bytes `s` takes in UTF-8.
pub open spec fn utf8_bytes(s: Seq<char>) -> nat
    decreases s.len(),
{
    if s.len() == 0 {
        0
    } else {
        utf8_bytes(s.drop_last()) + utf8_len(s.last())
    }
}

/// The start of an error text for a message: the longest prefix of `text` that
/// takes at most `max_bytes` bytes in UTF-8, so that no character is cut.
pub fn excerpt(text: &str, max_bytes: usize) -> (r: String)
    ensures
        r@.len() <= text@.len(),
        r@ == text@.take(r@.len() as int),
        utf8_bytes(r@) <= max_bytes,
        r@.len() < text@.len() ==> utf8_bytes(text@.take(r@.len() + 1 as int)) > max_bytes,
{
    let v = chars_of(text);
    let mut i: usize = 0;
    let mut used: usize = 0;
    while i < v.len()
        invariant
            i <= v.len(),
            v@ == text@,
            used == utf8_bytes(v@.take(i as int)),
            used <= max_bytes,
        decreases v.len() - i,
    {
        let c = v[i];
        let w: usize = if '\u{80}' > c {
            1
        } else if '\u{800}' > c {
            2
        } else if '\u{10000}' > c {
            3
        } else {
            4
        };
        assert(v@.take(i + 1).drop_last() =~= v@.take(i as int));
        if w > max_bytes - used {
            let r = slice_chars(&v, 0, i);
            assert(r@ =~= text@.take(i as int));
            return string_of(&r);
        }
        used = used + w;
        i += 1;
    }
    assert(v@.take(i as int) =~= text@);
    string_of(&v)
}

/// The message of a reply with a failure status: the status and the start of
/// the body, at most 300 bytes of it.
pub fn api_error_message(status: u16, body: &str) -> (r: String)
    ensures
        exists|cut: Seq<char>|
            r@ == "OpenAI API error ("@ + decimal(status as nat) + "): "@ + cut && cut == body@.take(cut.len() as int)
                && utf8_bytes(cut) <= 300 && (cut.len() < body@.len() ==> utf8_bytes(body@.take(cut.len() + 1 as int))
                > 300),
{
    let mut t = chars_of("OpenAI API error (");
    let d = decimal_chars(status as u64);
    push_all(&mut t, &d);
    push_str(&mut t, "): ");
    let cut = excerpt(body, 300);
    push_str(&mut t, cut.as_str());
    string_of(&t)
}

/// The nanoseconds since 1970 on the clock (`Duration::as_nanos`: whole seconds
/// times a billion plus the nanoseconds); zero when the clock reads before 1970.
fn nanos_since_epoch() -> (n: u128) {
    match crate::time::clock() {
        Some((s, ns)) => {
            assert((s as u128) * 1_000_000_000 <= 0xffff_ffff_ffff_ffffu128 * 1_000_000_000) by (nonlinear_arith)
                requires
                    s <= 0xffff_ffff_ffff_ffffu64,
            ;
            (s as u128) * 1_000_000_000 + (ns as u128)
        },
        None => 0,
    }
}

/// An identifier made of a number: its lower-case hexadecimal digits.
pub fn hex_id(n: u128) -> (r: String)
    ensures
        r@ == hex(n as nat),
{
    string_of(&hex_chars(n))
}

/// A fresh identifier: the nanoseconds since 1970 in lower-case hexadecimal
/// (`0` when the clock reads before 1970).
pub fn uuid_simple() -> (r: String)
    ensures
        exists|n: u128| r@ == hex(n as nat),
{
    let n = nanos_since_epoch();
    hex_id(n)
}

} // verus!
