//! The application configuration: the `api-key` file, overrides, and the
//! runtime configuration of the HTTP service.

use crate::text::{
    TrimSet, chars_are, chars_of, contains, contains_chars, find, lines, lines_chars, occurs_at, spec_to_uppercase,
    split_once, split_once_chars, starts_with, starts_with_chars, string_of, strip_prefix,
    strip_prefix_chars, trim, trim_by, trim_chars, trim_chars_by, uppercase_chars, views,
};
use vstd::prelude::*;

verus! {

/// The bit pattern of the `f64` value 5.0, the default speech speed of the service.
pub const FIVE_BITS: u64 = 0x4014_0000_0000_0000;

/// The configuration kept in `config.toml`.
pub struct AppConfig {
    pub api_key: Option<String>,
    /// `openai` or `minimax`.
    pub llm_provider: Option<String>,
    pub llm_model: Option<String>,
    pub llm_base_url: Option<String>,
    pub max_papers: Option<usize>,
    /// The speech speed, as the bit pattern of its `f64` value.
    pub voice_speed_bits: Option<u64>,
}

/// The content of a configuration.
pub struct ConfigView {
    pub api_key: Option<Seq<char>>,
    pub llm_provider: Option<Seq<char>>,
    pub llm_model: Option<Seq<char>>,
    pub llm_base_url: Option<Seq<char>>,
    pub max_papers: Option<usize>,
    pub voice_speed_bits: Option<u64>,
}

pub open spec fn ostr(s: Option<String>) -> Option<Seq<char>> {
    crate::paper::opt_str(s)
}

impl View for AppConfig {
    type V = ConfigView;

    open spec fn view(&self) -> ConfigView {
        ConfigView {
            api_key: ostr(self.api_key),
            llm_provider: ostr(self.llm_provider),
            llm_model: ostr(self.llm_model),
            llm_base_url: ostr(self.llm_base_url),
            max_papers: self.max_papers,
            voice_speed_bits: self.voice_speed_bits,
        }
    }
}

/// A configuration with nothing set.
pub open spec fn empty_config() -> ConfigView {
    ConfigView {
        api_key: None,
        llm_provider: None,
        llm_model: None,
        llm_base_url: None,
        max_papers: None,
        voice_speed_bits: None,
    }
}

/// Which setting a key of the `api-key` file names, by its upper-case form.
pub enum KeyField {
    ApiKey,
    BaseUrl,
    Model,
    Provider,
    Unknown,
}

pub open spec fn key_field(upper: Seq<char>) -> KeyField {
    if upper == "OPENAI_API_KEY"@ || upper == "MINIMAX_API_KEY"@ || upper == "API_KEY"@ {
        KeyField::ApiKey
    } else if upper == "OPENAI_BASE_URL"@ || upper == "BASE_URL"@ {
        KeyField::BaseUrl
    } else if upper == "LLM_MODEL"@ || upper == "MODEL"@ {
        KeyField::Model
    } else if upper == "LLM_PROVIDER"@ || upper == "PROVIDER"@ {
        KeyField::Provider
    } else {
        KeyField::Unknown
    }
}

/// A value of the file: surrounding blanks, then double quotes, then single quotes removed.
pub open spec fn unquote(v: Seq<char>) -> Seq<char> {
    trim_by(trim_by(trim(v), TrimSet::Only('"')), TrimSet::Only('\''))
}

/// The effect of one line of the `api-key` file. Blank lines and `#` comments
/// do nothing; an `export ` prefix is dropped; `KEY=VALUE` sets the setting the
/// key names, unless the value is empty or holds an unexpanded `$` variable; a line
/// without `=` (and not starting with `export `) is the API key, if none is set yet.
pub open spec fn apply_line(c: ConfigView, line: Seq<char>) -> ConfigView {
    let t = trim(line);
    if t.len() == 0 || starts_with(t, "#"@) {
        c
    } else {
        let l = match strip_prefix(t, "export "@) {
            Some(rest) => rest,
            None => t,
        };
        match split_once(l, '=') {
            Some((k, v)) => {
                let key = trim(k);
                let value = unquote(v);
                if value.len() == 0 || contains(value, "$"@) {
                    c
                } else {
                    match key_field(spec_to_uppercase(key)) {
                        KeyField::ApiKey => ConfigView { api_key: Some(value), ..c },
                        KeyField::BaseUrl => ConfigView { llm_base_url: Some(value), ..c },
                        KeyField::Model => ConfigView { llm_model: Some(value), ..c },
                        KeyField::Provider => ConfigView { llm_provider: Some(value), ..c },
                        KeyField::Unknown => c,
                    }
                }
            },
            None => if !starts_with(t, "export "@) && c.api_key is None {
                ConfigView { api_key: Some(t), ..c }
            } else {
                c
            },
        }
    }
}

/// The text of a line `key=value`.
pub open spec fn setting_line(key: Seq<char>, value: Seq<char>) -> Seq<char> {
    key + "="@ + value
}

proof fn lemma_first_equals(key: Seq<char>, value: Seq<char>)
    requires
        forall|i: int| 0 <= i < key.len() ==> key[i] != '=',
    ensures
        split_once(setting_line(key, value), '=') == Some((key, value)),
{
    let l = setting_line(key, value);
    let eq = seq!['='];
    reveal_strlit("=");
    assert(l[key.len() as int] == '=');
    assert(occurs_at(l, key.len() as int, eq)) by {
        assert(l.subrange(key.len() as int, key.len() + 1 as int) =~= eq);
    }
    crate::text::lemma_find_from_found(l, eq, 0);
    let k = find(l, eq)->0;
    assert(k <= key.len());
    if k < key.len() {
        assert(l.subrange(k, k + 1)[0] == l[k]);
        assert(l[k] == key[k]);
    }
    assert(l.take(key.len() as int) =~= key);
    assert(l.skip(key.len() + 1 as int) =~= value);
}

/// A line `KEY=VALUE` of the `api-key` file sets the setting its key names,
/// whatever the case of the key: `OPENAI_API_KEY`, `MINIMAX_API_KEY` and
/// `API_KEY` the key; `OPENAI_BASE_URL` and `BASE_URL` the endpoint;
/// `LLM_MODEL` and `MODEL` the model; `LLM_PROVIDER` and `PROVIDER` the
/// provider. This holds for a line without surrounding blanks that is no comment
/// and has no `export ` prefix, whose key holds no `=`, and whose value, unquoted,
/// is neither empty nor holds a `$`; every other setting stays.
pub proof fn lemma_key_line_sets(c: ConfigView, key: Seq<char>, value: Seq<char>)
    requires
        forall|i: int| 0 <= i < key.len() ==> key[i] != '=',
        trim(setting_line(key, value)) == setting_line(key, value),
        !starts_with(setting_line(key, value), "#"@),
        !starts_with(setting_line(key, value), "export "@),
        unquote(value).len() > 0,
        !contains(unquote(value), "$"@),
    ensures
        ({
            let k = spec_to_uppercase(trim(key));
            k == "OPENAI_API_KEY"@ || k == "MINIMAX_API_KEY"@ || k == "API_KEY"@
        }) ==> apply_line(c, setting_line(key, value)) == (ConfigView { api_key: Some(unquote(value)), ..c }),
        ({
            let k = spec_to_uppercase(trim(key));
            k == "OPENAI_BASE_URL"@ || k == "BASE_URL"@
        }) ==> apply_line(c, setting_line(key, value)) == (ConfigView { llm_base_url: Some(unquote(value)), ..c }),
        ({
            let k = spec_to_uppercase(trim(key));
            k == "LLM_MODEL"@ || k == "MODEL"@
        }) ==> apply_line(c, setting_line(key, value)) == (ConfigView { llm_model: Some(unquote(value)), ..c }),
        ({
            let k = spec_to_uppercase(trim(key));
            k == "LLM_PROVIDER"@ || k == "PROVIDER"@
        }) ==> apply_line(c, setting_line(key, value)) == (ConfigView { llm_provider: Some(unquote(value)), ..c }),
{
    lemma_first_equals(key, value);
    reveal_strlit("OPENAI_API_KEY");
    reveal_strlit("MINIMAX_API_KEY");
    reveal_strlit("API_KEY");
    reveal_strlit("OPENAI_BASE_URL");
    reveal_strlit("BASE_URL");
    reveal_strlit("LLM_MODEL");
    reveal_strlit("MODEL");
    reveal_strlit("LLM_PROVIDER");
    reveal_strlit("PROVIDER");
    assert("OPENAI_BASE_URL"@ != "OPENAI_API_KEY"@) by { assert("OPENAI_BASE_URL"@.len() != "OPENAI_API_KEY"@.len()); }
    assert("OPENAI_BASE_URL"@ != "MINIMAX_API_KEY"@) by { assert("OPENAI_BASE_URL"@[0] != "MINIMAX_API_KEY"@[0]); }
    assert("OPENAI_BASE_URL"@ != "API_KEY"@) by { assert("OPENAI_BASE_URL"@.len() != "API_KEY"@.len()); }
    assert("BASE_URL"@ != "OPENAI_API_KEY"@) by { assert("BASE_URL"@.len() != "OPENAI_API_KEY"@.len()); }
    assert("BASE_URL"@ != "MINIMAX_API_KEY"@) by { assert("BASE_URL"@.len() != "MINIMAX_API_KEY"@.len()); }
    assert("BASE_URL"@ != "API_KEY"@) by { assert("BASE_URL"@.len() != "API_KEY"@.len()); }
    assert("LLM_MODEL"@ != "OPENAI_API_KEY"@) by { assert("LLM_MODEL"@.len() != "OPENAI_API_KEY"@.len()); }
    assert("LLM_MODEL"@ != "MINIMAX_API_KEY"@) by { assert("LLM_MODEL"@.len() != "MINIMAX_API_KEY"@.len()); }
    assert("LLM_MODEL"@ != "API_KEY"@) by { assert("LLM_MODEL"@.len() != "API_KEY"@.len()); }
    assert("LLM_MODEL"@ != "OPENAI_BASE_URL"@) by { assert("LLM_MODEL"@.len() != "OPENAI_BASE_URL"@.len()); }
    assert("LLM_MODEL"@ != "BASE_URL"@) by { assert("LLM_MODEL"@.len() != "BASE_URL"@.len()); }
    assert("MODEL"@ != "OPENAI_API_KEY"@) by { assert("MODEL"@.len() != "OPENAI_API_KEY"@.len()); }
    assert("MODEL"@ != "MINIMAX_API_KEY"@) by { assert("MODEL"@.len() != "MINIMAX_API_KEY"@.len()); }
    assert("MODEL"@ != "API_KEY"@) by { assert("MODEL"@.len() != "API_KEY"@.len()); }
    assert("MODEL"@ != "OPENAI_BASE_URL"@) by { assert("MODEL"@.len() != "OPENAI_BASE_URL"@.len()); }
    assert("MODEL"@ != "BASE_URL"@) by { assert("MODEL"@.len() != "BASE_URL"@.len()); }
    assert("LLM_PROVIDER"@ != "OPENAI_API_KEY"@) by { assert("LLM_PROVIDER"@.len() != "OPENAI_API_KEY"@.len()); }
    assert("LLM_PROVIDER"@ != "MINIMAX_API_KEY"@) by { assert("LLM_PROVIDER"@.len() != "MINIMAX_API_KEY"@.len()); }
    assert("LLM_PROVIDER"@ != "API_KEY"@) by { assert("LLM_PROVIDER"@.len() != "API_KEY"@.len()); }
    assert("LLM_PROVIDER"@ != "OPENAI_BASE_URL"@) by { assert("LLM_PROVIDER"@.len() != "OPENAI_BASE_URL"@.len()); }
    assert("LLM_PROVIDER"@ != "BASE_URL"@) by { assert("LLM_PROVIDER"@.len() != "BASE_URL"@.len()); }
    assert("LLM_PROVIDER"@ != "LLM_MODEL"@) by { assert("LLM_PROVIDER"@.len() != "LLM_MODEL"@.len()); }
    assert("LLM_PROVIDER"@ != "MODEL"@) by { assert("LLM_PROVIDER"@.len() != "MODEL"@.len()); }
    assert("PROVIDER"@ != "OPENAI_API_KEY"@) by { assert("PROVIDER"@.len() != "OPENAI_API_KEY"@.len()); }
    assert("PROVIDER"@ != "MINIMAX_API_KEY"@) by { assert("PROVIDER"@.len() != "MINIMAX_API_KEY"@.len()); }
    assert("PROVIDER"@ != "API_KEY"@) by { assert("PROVIDER"@.len() != "API_KEY"@.len()); }
    assert("PROVIDER"@ != "OPENAI_BASE_URL"@) by { assert("PROVIDER"@.len() != "OPENAI_BASE_URL"@.len()); }
    assert("PROVIDER"@ != "BASE_URL"@) by { assert("PROVIDER"@[0] != "BASE_URL"@[0]); }
    assert("PROVIDER"@ != "LLM_MODEL"@) by { assert("PROVIDER"@.len() != "LLM_MODEL"@.len()); }
    assert("PROVIDER"@ != "MODEL"@) by { assert("PROVIDER"@.len() != "MODEL"@.len()); }
    let l = setting_line(key, value);
    assert(l.len() > 0) by {
        reveal_strlit("=");
    }
    assert(strip_prefix(l, "export "@) is None);
}

/// The effect of the lines, in order, on `c`.
pub open spec fn apply_lines(c: ConfigView, ls: Seq<Seq<char>>) -> ConfigView
    decreases ls.len(),
{
    if ls.len() == 0 {
        c
    } else {
        apply_line(apply_lines(c, ls.drop_last()), ls.last())
    }
}

/// The configuration an `api-key` file sets.
pub open spec fn key_file_config(content: Seq<char>) -> ConfigView {
    apply_lines(empty_config(), lines(content))
}

/// `c` with the connection settings (key, endpoint, model, provider) that `file` sets.
pub open spec fn with_file(c: ConfigView, file: ConfigView) -> ConfigView {
    ConfigView {
        api_key: if file.api_key is Some { file.api_key } else { c.api_key },
        llm_base_url: if file.llm_base_url is Some { file.llm_base_url } else { c.llm_base_url },
        llm_model: if file.llm_model is Some { file.llm_model } else { c.llm_model },
        llm_provider: if file.llm_provider is Some { file.llm_provider } else { c.llm_provider },
        ..c
    }
}

/// `s` when it is set and not empty.
pub open spec fn nonempty(s: Option<Seq<char>>) -> Option<Seq<char>> {
    match s {
        Some(t) => if t.len() > 0 {
            Some(t)
        } else {
            None
        },
        None => None,
    }
}

/// The key the environment gives: `MINIMAX_API_KEY`, else `OPENAI_API_KEY`,
/// each only when set and not empty.
pub open spec fn env_key(openai_key: Option<Seq<char>>, minimax_key: Option<Seq<char>>) -> Option<Seq<char>> {
    match nonempty(minimax_key) {
        Some(k) => Some(k),
        None => nonempty(openai_key),
    }
}

/// `c` with the key and the endpoint that the environment gives.
pub open spec fn with_env(
    c: ConfigView,
    openai_key: Option<Seq<char>>,
    minimax_key: Option<Seq<char>>,
    base_url: Option<Seq<char>>,
) -> ConfigView {
    ConfigView {
        api_key: match env_key(openai_key, minimax_key) {
            Some(k) => Some(k),
            None => c.api_key,
        },
        llm_base_url: match nonempty(base_url) {
            Some(b) => Some(b),
            None => c.llm_base_url,
        },
        ..c
    }
}

/// The configuration in force: `base`, overridden by the `api-key` file's
/// connection settings, then by the environment's `MINIMAX_API_KEY` (or
/// `OPENAI_API_KEY`) and `OPENAI_BASE_URL`.
pub open spec fn layered(
    base: ConfigView,
    key_file: Option<Seq<char>>,
    openai_key: Option<Seq<char>>,
    minimax_key: Option<Seq<char>>,
    base_url: Option<Seq<char>>,
) -> ConfigView {
    let c = match key_file {
        Some(t) => with_file(base, key_file_config(t)),
        None => base,
    };
    with_env(c, openai_key, minimax_key, base_url)
}

/// The key in force comes from the environment (`MINIMAX_API_KEY`, else
/// `OPENAI_API_KEY`) when it gives one, else from the `api-key` file when it
/// sets one, else from `config.toml`; the endpoint likewise from
/// `OPENAI_BASE_URL`, the file, then `config.toml`; the paper count and speech
/// speed always come from `config.toml`.
pub proof fn lemma_key_priority(
    base: ConfigView,
    key_file: Option<Seq<char>>,
    openai_key: Option<Seq<char>>,
    minimax_key: Option<Seq<char>>,
    base_url: Option<Seq<char>>,
)
    ensures
        layered(base, key_file, openai_key, minimax_key, base_url).api_key == if env_key(openai_key, minimax_key) is Some {
            env_key(openai_key, minimax_key)
        } else if key_file matches Some(t) && key_file_config(t).api_key is Some {
            key_file_config(key_file->0).api_key
        } else {
            base.api_key
        },
        layered(base, key_file, openai_key, minimax_key, base_url).llm_base_url == if nonempty(base_url) is Some {
            nonempty(base_url)
        } else if key_file matches Some(t) && key_file_config(t).llm_base_url is Some {
            key_file_config(key_file->0).llm_base_url
        } else {
            base.llm_base_url
        },
        env_key(openai_key, minimax_key) matches Some(k) ==> k.len() > 0,
        layered(base, key_file, openai_key, minimax_key, base_url).max_papers == base.max_papers,
        layered(base, key_file, openai_key, minimax_key, base_url).voice_speed_bits == base.voice_speed_bits,
{
}

/// A key file never sets the paper count or the speech speed.
pub proof fn lemma_key_file_scope(content: Seq<char>)
    ensures
        key_file_config(content).max_papers is None,
        key_file_config(content).voice_speed_bits is None,
{
    lemma_apply_lines_scope(empty_config(), lines(content));
}

proof fn lemma_apply_lines_scope(c: ConfigView, ls: Seq<Seq<char>>)
    ensures
        apply_lines(c, ls).max_papers == c.max_papers,
        apply_lines(c, ls).voice_speed_bits == c.voice_speed_bits,
    decreases ls.len(),
{
    if ls.len() > 0 {
        lemma_apply_lines_scope(c, ls.drop_last());
    }
}

/// The string when it is set and not empty.
fn nonempty_string(s: Option<String>) -> (r: Option<String>)
    ensures
        ostr(r) == nonempty(ostr(s)),
{
    match s {
        Some(t) => if t.as_str().is_empty() {
            None
        } else {
            Some(t)
        },
        None => None,
    }
}

impl AppConfig {
    fn empty() -> (c: AppConfig)
        ensures
            c@ == empty_config(),
    {
        AppConfig {
            api_key: None,
            llm_provider: None,
            llm_model: None,
            llm_base_url: None,
            max_papers: None,
            voice_speed_bits: None,
        }
    }

    fn set_field(&mut self, upper: &Vec<char>, value: String)
        ensures
            final(self)@ == match key_field(upper@) {
                KeyField::ApiKey => ConfigView { api_key: Some(value@), ..old(self)@ },
                KeyField::BaseUrl => ConfigView { llm_base_url: Some(value@), ..old(self)@ },
                KeyField::Model => ConfigView { llm_model: Some(value@), ..old(self)@ },
                KeyField::Provider => ConfigView { llm_provider: Some(value@), ..old(self)@ },
                KeyField::Unknown => old(self)@,
            },
    {
        if chars_are(upper, "OPENAI_API_KEY") || chars_are(upper, "MINIMAX_API_KEY") || chars_are(upper, "API_KEY") {
            self.api_key = Some(value);
        } else if chars_are(upper, "OPENAI_BASE_URL") || chars_are(upper, "BASE_URL") {
            self.llm_base_url = Some(value);
        } else if chars_are(upper, "LLM_MODEL") || chars_are(upper, "MODEL") {
            self.llm_model = Some(value);
        } else if chars_are(upper, "LLM_PROVIDER") || chars_are(upper, "PROVIDER") {
            self.llm_provider = Some(value);
        }
    }

    fn apply_line(&mut self, line: &Vec<char>)
        ensures
            final(self)@ == apply_line(old(self)@, line@),
    {
        let t = trim_chars(line);
        if t.len() == 0 || starts_with_chars(&t, &chars_of("#")) {
            return;
        }
        let export = chars_of("export ");
        let l = match strip_prefix_chars(&t, &export) {
            Some(rest) => rest,
            None => crate::text::slice_chars(&t, 0, t.len()),
        };
        assert(l@ == match strip_prefix(t@, "export "@) {
            Some(rest) => rest,
            None => t@,
        }) by {
            assert(t@.subrange(0, t@.len() as int) =~= t@);
        }
        match split_once_chars(&l, '=') {
            Some((k, v)) => {
                let key = trim_chars(&k);
                let v1 = trim_chars(&v);
                let v2 = trim_chars_by(&v1, TrimSet::Only('"'));
                let value = trim_chars_by(&v2, TrimSet::Only('\''));
                if value.len() == 0 || contains_chars(&value, &chars_of("$")) {
                    return;
                }
                let upper = uppercase_chars(&key);
                self.set_field(&upper, string_of(&value));
            },
            None => {
                if !starts_with_chars(&t, &export) && self.api_key.is_none() {
                    self.api_key = Some(string_of(&t));
                }
            },
        }
    }

    /// The settings of an `api-key` file (`.env` style, or a bare key).
    pub fn parse_api_key_file(content: &str) -> (c: AppConfig)
        ensures
            c@ == key_file_config(content@),
    {
        let v = chars_of(content);
        let ls = lines_chars(&v);
        let ghost lv = views(ls@);
        let mut c = AppConfig::empty();
        let mut i: usize = 0;
        assert(lv.take(0) =~= Seq::<Seq<char>>::empty());
        while i < ls.len()
            invariant
                i <= ls.len(),
                lv == views(ls@),
                lv == lines(v@),
                c@ == apply_lines(empty_config(), lv.take(i as int)),
            decreases ls.len() - i,
        {
            assert(lv.take(i + 1).drop_last() =~= lv.take(i as int));
            c.apply_line(&ls[i]);
            i += 1;
        }
        assert(lv.take(i as int) =~= lv);
        c
    }

    /// Every connection setting the `api-key` file sets replaces the configured one.
    pub fn apply_key_file(&mut self, file: AppConfig)
        ensures
            final(self)@ == with_file(old(self)@, file@),
    {
        if file.api_key.is_some() {
            self.api_key = file.api_key;
        }
        if file.llm_base_url.is_some() {
            self.llm_base_url = file.llm_base_url;
        }
        if file.llm_model.is_some() {
            self.llm_model = file.llm_model;
        }
        if file.llm_provider.is_some() {
            self.llm_provider = file.llm_provider;
        }
    }

    /// The key and the endpoint of the environment replace the configured ones:
    /// `MINIMAX_API_KEY`, else `OPENAI_API_KEY`, and `OPENAI_BASE_URL`, each
    /// only when set and not empty.
    pub fn apply_env(
        &mut self,
        openai_key: Option<String>,
        minimax_key: Option<String>,
        base_url: Option<String>,
    )
        ensures
            final(self)@ == with_env(old(self)@, ostr(openai_key), ostr(minimax_key), ostr(base_url)),
    {
        match nonempty_string(minimax_key) {
            Some(k) => {
                self.api_key = Some(k);
            },
            None => {
                if let Some(k) = nonempty_string(openai_key) {
                    self.api_key = Some(k);
                }
            },
        }
        if let Some(b) = nonempty_string(base_url) {
            self.llm_base_url = Some(b);
        }
    }

    /// The configuration in force: `config.toml` (or the defaults), then the
    /// `api-key` file of the working directory when there is one, then the
    /// environment's `MINIMAX_API_KEY` (or `OPENAI_API_KEY`) and `OPENAI_BASE_URL`.
    pub fn resolve(
        base: AppConfig,
        key_file: Option<&str>,
        openai_key: Option<String>,
        minimax_key: Option<String>,
        base_url: Option<String>,
    ) -> (c: AppConfig)
        ensures
            c@ == layered(
                base@,
                match key_file {
                    Some(t) => Some(t@),
                    None => None,
                },
                ostr(openai_key),
                ostr(minimax_key),
                ostr(base_url),
            ),
    {
        let mut c = base;
        if let Some(content) = key_file {
            let file = AppConfig::parse_api_key_file(content);
            c.apply_key_file(file);
        }
        c.apply_env(openai_key, minimax_key, base_url);
        c
    }

    /// Takes the key, the paper count and the speech speed that `other` sets.
    pub fn merge(&mut self, other: &AppConfig)
        ensures
            final(self)@ == (ConfigView {
                api_key: if other@.api_key is Some { other@.api_key } else { old(self)@.api_key },
                max_papers: if other.max_papers is Some { other.max_papers } else { old(self).max_papers },
                voice_speed_bits: if other.voice_speed_bits is Some {
                    other.voice_speed_bits
                } else {
                    old(self).voice_speed_bits
                },
                ..old(self)@
            }),
    {
        if other.api_key.is_some() {
            self.api_key = crate::paper::copy_opt_string(&other.api_key);
        }
        if other.max_papers.is_some() {
            self.max_papers = other.max_papers;
        }
        if other.voice_speed_bits.is_some() {
            self.voice_speed_bits = other.voice_speed_bits;
        }
    }

    /// The configuration without a file, from the environment's
    /// `OPENAI_API_KEY`, `MINIMAX_API_KEY` and `OPENAI_BASE_URL`: the OpenAI key
    /// before the MiniMax one; MiniMax as provider only when only its key is set.
    pub fn from_env_values(
        openai_key: Option<String>,
        minimax_key: Option<String>,
        openai_base_url: Option<String>,
    ) -> (c: AppConfig)
        ensures
            c@.api_key == if openai_key is Some { ostr(openai_key) } else { ostr(minimax_key) },
            c@.llm_base_url == Some(
                match openai_base_url {
                    Some(b) => b@,
                    None => "https://api.openai.com"@,
                },
            ),
            c@.llm_provider == Some(
                if minimax_key is Some && openai_key is None {
                    "minimax"@
                } else {
                    "openai"@
                },
            ),
            c@.llm_model == Some(
                if minimax_key is Some && openai_key is None {
                    "abab6.5s-chat"@
                } else {
                    "gpt-4o-mini"@
                },
            ),
            c.max_papers == Some(5usize),
            c.voice_speed_bits == Some(FIVE_BITS),
    {
        let minimax_only = minimax_key.is_some() && openai_key.is_none();
        let key = match openai_key {
            Some(k) => Some(k),
            None => minimax_key,
        };
        let base = match openai_base_url {
            Some(b) => b,
            None => "https://api.openai.com".to_owned(),
        };
        let (provider, model) = if minimax_only {
            ("minimax".to_owned(), "abab6.5s-chat".to_owned())
        } else {
            ("openai".to_owned(), "gpt-4o-mini".to_owned())
        };
        AppConfig {
            api_key: key,
            llm_provider: Some(provider),
            llm_model: Some(model),
            llm_base_url: Some(base),
            max_papers: Some(5),
            voice_speed_bits: Some(FIVE_BITS),
        }
    }
}

/// The runtime configuration of the HTTP service.
pub struct ApiConfig {
    pub max_papers: usize,
    /// The speech speed, as the bit pattern of its `f64` value.
    pub voice_speed_bits: u64,
    pub api_key: Option<String>,
    pub llm_provider: String,
    pub llm_model: String,
    pub llm_base_url: String,
}

/// A change of the runtime configuration.
pub struct UpdateConfigRequest {
    pub max_papers: Option<usize>,
    /// The speech speed, as the bit pattern of its `f64` value.
    pub voice_speed_bits: Option<u64>,
    pub api_key: Option<String>,
}

fn or_default(s: &Option<String>, default: &str) -> (r: String)
    ensures
        r@ == match *s {
            Some(t) => t@,
            None => default@,
        },
{
    match s {
        Some(t) => t.clone(),
        None => default.to_owned(),
    }
}

/// The content of a runtime configuration.
pub struct ApiView {
    pub max_papers: usize,
    pub voice_speed_bits: u64,
    pub api_key: Option<Seq<char>>,
    pub llm_provider: Seq<char>,
    pub llm_model: Seq<char>,
    pub llm_base_url: Seq<char>,
}

impl View for ApiConfig {
    type V = ApiView;

    open spec fn view(&self) -> ApiView {
        ApiView {
            max_papers: self.max_papers,
            voice_speed_bits: self.voice_speed_bits,
            api_key: ostr(self.api_key),
            llm_provider: self.llm_provider@,
            llm_model: self.llm_model@,
            llm_base_url: self.llm_base_url@,
        }
    }
}

/// The runtime configuration of a file configuration; what the file leaves
/// unset defaults to five papers, speed 5.0 and `gpt-4o-mini` at OpenAI.
pub open spec fn api_of(c: ConfigView) -> ApiView {
    ApiView {
        max_papers: match c.max_papers {
            Some(n) => n,
            None => 5,
        },
        voice_speed_bits: match c.voice_speed_bits {
            Some(b) => b,
            None => FIVE_BITS,
        },
        api_key: c.api_key,
        llm_provider: match c.llm_provider {
            Some(p) => p,
            None => "openai"@,
        },
        llm_model: match c.llm_model {
            Some(m) => m,
            None => "gpt-4o-mini"@,
        },
        llm_base_url: match c.llm_base_url {
            Some(b) => b,
            None => "https://api.openai.com"@,
        },
    }
}

/// The file configuration storing a runtime configuration: every setting written.
pub open spec fn app_of(a: ApiView) -> ConfigView {
    ConfigView {
        api_key: a.api_key,
        llm_provider: Some(a.llm_provider),
        llm_model: Some(a.llm_model),
        llm_base_url: Some(a.llm_base_url),
        max_papers: Some(a.max_papers),
        voice_speed_bits: Some(a.voice_speed_bits),
    }
}

/// A runtime configuration saved to the file and loaded back is the same.
pub proof fn lemma_api_config_round_trip(a: ApiView)
    ensures
        api_of(app_of(a)) == a,
{
}

impl ApiConfig {
    /// The runtime configuration of a file configuration.
    pub fn from_app_config(app_config: &AppConfig) -> (c: ApiConfig)
        ensures
            c@ == api_of(app_config@),
    {
        ApiConfig {
            max_papers: match app_config.max_papers {
                Some(n) => n,
                None => 5,
            },
            voice_speed_bits: match app_config.voice_speed_bits {
                Some(b) => b,
                None => FIVE_BITS,
            },
            api_key: crate::paper::copy_opt_string(&app_config.api_key),
            llm_provider: or_default(&app_config.llm_provider, "openai"),
            llm_model: or_default(&app_config.llm_model, "gpt-4o-mini"),
            llm_base_url: or_default(&app_config.llm_base_url, "https://api.openai.com"),
        }
    }

    /// The file configuration that stores this runtime configuration.
    pub fn to_app_config(&self) -> (c: AppConfig)
        ensures
            c@ == app_of(self@),
    {
        AppConfig {
            api_key: crate::paper::copy_opt_string(&self.api_key),
            llm_provider: Some(self.llm_provider.clone()),
            llm_model: Some(self.llm_model.clone()),
            llm_base_url: Some(self.llm_base_url.clone()),
            max_papers: Some(self.max_papers),
            voice_speed_bits: Some(self.voice_speed_bits),
        }
    }

    /// Applies the settings a request gives; the others stay.
    pub fn apply_update(&mut self, req: UpdateConfigRequest)
        ensures
            final(self).max_papers == match req.max_papers {
                Some(n) => n,
                None => old(self).max_papers,
            },
            final(self).voice_speed_bits == match req.voice_speed_bits {
                Some(b) => b,
                None => old(self).voice_speed_bits,
            },
            ostr(final(self).api_key) == match req.api_key {
                Some(k) => Some(k@),
                None => ostr(old(self).api_key),
            },
            final(self).llm_provider == old(self).llm_provider,
            final(self).llm_model == old(self).llm_model,
            final(self).llm_base_url == old(self).llm_base_url,
    {
        if let Some(max) = req.max_papers {
            self.max_papers = max;
        }
        if let Some(speed) = req.voice_speed_bits {
            self.voice_speed_bits = speed;
        }
        if let Some(key) = req.api_key {
            self.api_key = Some(key);
        }
    }

    pub fn copy(&self) -> (c: ApiConfig)
        ensures
            c.max_papers == self.max_papers,
            c.voice_speed_bits == self.voice_speed_bits,
            c.api_key == self.api_key,
            c.llm_provider == self.llm_provider,
            c.llm_model == self.llm_model,
            c.llm_base_url == self.llm_base_url,
    {
        ApiConfig {
            max_papers: self.max_papers,
            voice_speed_bits: self.voice_speed_bits,
            api_key: crate::paper::copy_opt_string(&self.api_key),
            llm_provider: self.llm_provider.clone(),
            llm_model: self.llm_model.clone(),
            llm_base_url: self.llm_base_url.clone(),
        }
    }
}

} // verus!
