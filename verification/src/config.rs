//! Configuration: model groups and model providers (read from `neoco.toml`).
use vstd::prelude::*;

use crate::path::{joined, path_join};
use crate::sandbox::error::io_error_text;
use crate::text::{begins_with, lemma_begins_with_self, prefixed};
use crate::text::{before, chars_of, pieces, prefix_before, same_chars, split_on, string_of, views_match};

verus! {

#[verifier::external_type_specification]
#[verifier::external_body]
pub struct ExTomlError(toml::de::Error);

/// Calls `ToString::to_string` on a `toml::de::Error`. The text is not
/// stated.
#[verifier::external_body]
fn toml_error_text(e: &toml::de::Error) -> String {
    e.to_string()
}

/// Errors of loading the configuration or of finding an API key.
#[derive(Debug)]
pub enum ConfigError {
    /// The configuration file could not be read.
    ReadFile(std::io::Error),
    /// The configuration file is not valid TOML for a configuration.
    ParseToml(toml::de::Error),
    /// The environment variable of the API key is not set.
    MissingApiKey(String),
}

/// The known part of a configuration error's message: all of it, but for
/// the text of the I/O or TOML error.
pub open spec fn config_error_text(e: ConfigError) -> Seq<char> {
    match e {
        ConfigError::ReadFile(_) => "Failed to read config file: "@,
        ConfigError::ParseToml(_) => "Failed to parse config file: "@,
        ConfigError::MissingApiKey(v) => "Missing API key: set "@ + v@ + " environment variable"@,
    }
}

impl ConfigError {
    /// The error's message.
    pub fn message(&self) -> (res: String)
        ensures
            begins_with(res@, config_error_text(*self)),
            *self is MissingApiKey ==> res@ == config_error_text(*self),
    {
        let res = match self {
            ConfigError::ReadFile(e) => {
                let t = io_error_text(e);
                let res = prefixed("Failed to read config file: ", t.as_str());
                assert(res@.subrange(0, "Failed to read config file: "@.len() as int)
                    =~= "Failed to read config file: "@);
                res
            },
            ConfigError::ParseToml(e) => {
                let t = toml_error_text(e);
                let res = prefixed("Failed to parse config file: ", t.as_str());
                assert(res@.subrange(0, "Failed to parse config file: "@.len() as int)
                    =~= "Failed to parse config file: "@);
                res
            },
            ConfigError::MissingApiKey(v) => {
                let mut res = prefixed("Missing API key: set ", v.as_str());
                res.append(" environment variable");
                res
            },
        };
        proof {
            lemma_begins_with_self(res@);
        }
        res
    }
}

/// Provider type.
#[derive(Debug, Clone, Copy, PartialEq, Eq)]
pub enum ProviderType {
    /// `OpenAI` Completions API (legacy).
    OpenAICompletions,
    /// `OpenAI` Responses API (newer).
    OpenAIResponses,
    /// Anthropic API.
    Anthropic,
}

/// Model provider configuration.
#[derive(Debug, Clone)]
pub struct Provider {
    /// Provider type: openai, openai-responses, anthropic.
    pub provider_type: ProviderType,
    /// Display name.
    pub name: String,
    /// API base URL.
    pub base_url: String,
    /// Environment variable that holds the API key.
    pub api_key_env: String,
}

/// A named entry of a configuration table.
#[derive(Debug, Clone)]
pub struct Entry<V> {
    pub key: String,
    pub value: V,
}

/// Full configuration from `neoco.toml`. The tables are lists of entries;
/// a key that occurs twice is found at its first entry.
#[derive(Debug)]
pub struct Config {
    /// Default model (e.g. `minimax-cn/MiniMax-M2.5?temperature=0.1`).
    pub model: Option<String>,
    /// Default model group.
    pub model_group: Option<String>,
    /// Model groups: group name to the models of the group.
    pub model_groups: Vec<Entry<Vec<String>>>,
    /// Model providers: provider name to provider configuration.
    pub model_providers: Vec<Entry<Provider>>,
}

/// The index of the first entry with key `key`, if any.
pub open spec fn first_key_index<V>(entries: Seq<Entry<V>>, key: Seq<char>) -> Option<int> {
    if exists|i: int| 0 <= i < entries.len() && (#[trigger] entries[i]).key@ == key {
        Some(
            choose|i: int|
                0 <= i < entries.len() && (#[trigger] entries[i]).key@ == key && forall|j: int|
                    0 <= j < i ==> (#[trigger] entries[j]).key@ != key,
        )
    } else {
        None
    }
}

/// The ASCII lower case of a character.
pub open spec fn ascii_lower(c: char) -> char {
    if 'A' <= c && c <= 'Z' {
        ((c as u32) + 32) as char
    } else {
        c
    }
}

/// `str::eq_ignore_ascii_case`.
pub open spec fn same_ignoring_ascii_case(a: Seq<char>, b: Seq<char>) -> bool {
    a.len() == b.len() && forall|i: int| 0 <= i < a.len() ==> ascii_lower(#[trigger] a[i]) == ascii_lower(b[i])
}

/// The provider name of a model string: everything before the first `/`.
pub open spec fn provider_name(model: Seq<char>) -> Seq<char> {
    before(model, '/')
}

/// The index of the provider of `model`: the first entry named exactly like
/// the provider name, or else the first whose name equals it ignoring ASCII case.
pub open spec fn provider_index(providers: Seq<Entry<Provider>>, model: Seq<char>) -> Option<int> {
    let name = provider_name(model);
    match first_key_index(providers, name) {
        Some(i) => Some(i),
        None => if exists|i: int|
            0 <= i < providers.len() && same_ignoring_ascii_case(
                (#[trigger] providers[i]).key@,
                name,
            ) {
            Some(
                choose|i: int|
                    0 <= i < providers.len() && same_ignoring_ascii_case(
                        (#[trigger] providers[i]).key@,
                        name,
                    ) && forall|j: int|
                        0 <= j < i ==> !same_ignoring_ascii_case((#[trigger] providers[j]).key@, name),
            )
        } else {
            None
        },
    }
}

/// The model name of a model string: the part after the first `/` and
/// before any `?`; a string without `/` is the model name itself.
pub open spec fn model_name(model: Seq<char>) -> Seq<char> {
    let ps = pieces(model, '/');
    if ps.len() > 1 {
        before(ps[1], '?')
    } else {
        model
    }
}

fn lower(c: char) -> (res: char)
    ensures
        res == ascii_lower(c),
{
    if 'A' <= c && c <= 'Z' {
        let u = c as u8;
        ((u + 32) as char)
    } else {
        c
    }
}

/// `str::eq_ignore_ascii_case` on character sequences.
pub fn eq_ignore_ascii_case(a: &[char], b: &[char]) -> (res: bool)
    ensures
        res == same_ignoring_ascii_case(a@, b@),
{
    if a.len() != b.len() {
        return false;
    }
    let mut i: usize = 0;
    while i < a.len()
        invariant
            a@.len() == b@.len(),
            i <= a@.len(),
            forall|k: int| 0 <= k < i ==> ascii_lower(#[trigger] a@[k]) == ascii_lower(b@[k]),
        decreases a.len() - i,
    {
        if lower(a[i]) != lower(b[i]) {
            return false;
        }
        i = i + 1;
    }
    true
}

/// The index of the first entry with key `key`.
fn find_key<V>(entries: &Vec<Entry<V>>, key: &[char]) -> (res: Option<usize>)
    ensures
        match res {
            Some(i) => first_key_index(entries@, key@) == Some(i as int) && i < entries@.len()
                && entries@[i as int].key@ == key@,
            None => first_key_index(entries@, key@) is None,
        },
{
    let mut i: usize = 0;
    while i < entries.len()
        invariant
            i <= entries@.len(),
            forall|j: int| 0 <= j < i ==> (#[trigger] entries@[j]).key@ != key@,
        decreases entries.len() - i,
    {
        let k = chars_of(entries[i].key.as_str());
        if same_chars(&k, key) {
            let ghost e = entries@;
            assert(e[i as int].key@ == key@);
            let ghost c = choose|c: int|
                0 <= c < e.len() && (#[trigger] e[c]).key@ == key@ && forall|j: int|
                    0 <= j < c ==> (#[trigger] e[j]).key@ != key@;
            assert(c == i) by {
                if c < i {
                    assert(e[c].key@ != key@);
                }
                if c > i {
                    assert(e[i as int].key@ != key@);
                }
            }
            return Some(i);
        }
        i = i + 1;
    }
    None
}

impl Config {
    /// A configuration with the given settings and tables.
    pub fn new(
        model: Option<String>,
        model_group: Option<String>,
        model_groups: Vec<Entry<Vec<String>>>,
        model_providers: Vec<Entry<Provider>>,
    ) -> (res: Self)
        ensures
            res.model == model,
            res.model_group == model_group,
            res.model_groups@ == model_groups@,
            res.model_providers == model_providers,
    {
        Config { model, model_group, model_groups, model_providers }
    }

    /// The default path of the configuration file, `.neoco/neoco.toml`.
    pub fn default_path() -> (res: String)
        ensures
            res@ == joined(".neoco"@, "neoco.toml"@),
    {
        path_join(".neoco", "neoco.toml")
    }

    /// The first model of the model group `group`.
    pub fn get_model_from_group(&self, group: &str) -> (res: Option<String>)
        ensures
            match first_key_index(self.model_groups@, group@) {
                Some(i) => if self.model_groups@[i].value@.len() > 0 {
                    res matches Some(m) && m == self.model_groups@[i].value@[0]
                } else {
                    res is None
                },
                None => res is None,
            },
    {
        let g = chars_of(group);
        match find_key(&self.model_groups, &g) {
            Some(i) => {
                if self.model_groups[i].value.len() > 0 {
                    Some(self.model_groups[i].value[0].clone())
                } else {
                    None
                }
            },
            None => None,
        }
    }

    /// The provider of a model string such as `minimax-cn/MiniMax-M2.5`: the
    /// provider named by the part before `/`, exactly or else ignoring ASCII case.
    pub fn extract_provider(&self, model: &str) -> (res: Option<&Provider>)
        ensures
            match provider_index(self.model_providers@, model@) {
                Some(i) => res matches Some(p) && *p == self.model_providers@[i].value,
                None => res is None,
            },
    {
        let m = chars_of(model);
        let name = prefix_before(&m, '/');
        match find_key(&self.model_providers, &name) {
            Some(i) => {
                return Some(&self.model_providers[i].value);
            },
            None => {},
        }
        let mut i: usize = 0;
        while i < self.model_providers.len()
            invariant
                i <= self.model_providers@.len(),
                name@ == provider_name(model@),
                first_key_index(self.model_providers@, name@) is None,
                forall|j: int|
                    0 <= j < i ==> !same_ignoring_ascii_case(
                        (#[trigger] self.model_providers@[j]).key@,
                        name@,
                    ),
            decreases self.model_providers.len() - i,
        {
            let k = chars_of(self.model_providers[i].key.as_str());
            if eq_ignore_ascii_case(&k, &name) {
                let ghost p = self.model_providers@;
                assert(same_ignoring_ascii_case(p[i as int].key@, name@));
                let ghost c = choose|c: int|
                    0 <= c < p.len() && same_ignoring_ascii_case((#[trigger] p[c]).key@, name@)
                        && forall|j: int|
                        0 <= j < c ==> !same_ignoring_ascii_case((#[trigger] p[j]).key@, name@);
                assert(c == i) by {
                    if c < i {
                        assert(!same_ignoring_ascii_case(p[c].key@, name@));
                    }
                    if c > i {
                        assert(!same_ignoring_ascii_case(p[i as int].key@, name@));
                    }
                }
                return Some(&self.model_providers[i].value);
            }
            i = i + 1;
        }
        None
    }
}

impl Config {
    /// The API key of `provider`, from `value`, the value of its environment
    /// variable (`None` when it is not set).
    pub fn get_api_key(provider: &Provider, value: Option<String>) -> (res: Result<String, ConfigError>)
        ensures
            match value {
                Some(v) => res matches Ok(k) && k@ == v@,
                None => res matches Err(ConfigError::MissingApiKey(n)) && n@ == provider.api_key_env@,
            },
    {
        match value {
            Some(v) => Ok(v),
            None => Err(ConfigError::MissingApiKey(provider.api_key_env.clone())),
        }
    }
}

/// The model name of a model string (see `model_name`).
pub fn model_name_of(model: &str) -> (res: String)
    ensures
        res@ == model_name(model@),
{
    let m = chars_of(model);
    let ps = split_on(&m, '/');
    if ps.len() > 1 {
        let n = prefix_before(&ps[1], '?');
        string_of(&n)
    } else {
        model.to_owned()
    }
}

} // verus!
