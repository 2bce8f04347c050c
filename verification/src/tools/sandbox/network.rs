//! Network access whitelist for the sandbox.
//!
//! Optional: it only restricts anything once it is enabled.
use vstd::prelude::*;

use crate::text::{
    before, begins_with, chars_of, first_word, first_word_of, has_char, lemma_run_until_bound, prefix_before, push_char,
    same_chars, slice_chars, starts_with, string_of,
};

verus! {

#[verifier::external_type_specification]
#[verifier::external_body]
pub struct ExRegex(regex::Regex);

#[verifier::external_type_specification]
#[verifier::external_body]
pub struct ExRegexError(regex::Error);

/// Whether `regex::Regex::new` accepts the pattern.
pub uninterp spec fn regex_compiles(pattern: Seq<char>) -> bool;

/// Whether the regex compiled from `pattern` matches somewhere in `text`
/// (`regex::Regex::is_match`).
pub uninterp spec fn regex_matches(pattern: Seq<char>, text: Seq<char>) -> bool;

/// A host pattern compiled to a regex, kept with the regex's source text.
/// Only `compile_host_pattern` builds one, so `regex` is always the
/// compilation of `source`.
#[derive(Debug)]
pub struct HostPattern {
    source: String,
    regex: regex::Regex,
}

impl HostPattern {
    /// The regex source of the pattern.
    pub closed spec fn source_view(&self) -> Seq<char> {
        self.source@
    }
}

/// Calls `regex::Regex::new` on `source`; it succeeds exactly when the name
/// `regex_compiles` holds of the source, and the compiled regex is kept with
/// its source.
#[verifier::external_body]
fn compile_host_pattern(source: String) -> (res: Result<HostPattern, regex::Error>)
    ensures
        res is Ok <==> regex_compiles(source@),
        res matches Ok(p) ==> p.source_view() == source@,
{
    match regex::Regex::new(&source) {
        Ok(regex) => Ok(HostPattern { source, regex }),
        Err(e) => Err(e),
    }
}

/// Calls `regex::Regex::is_match` on the pattern's regex; the result is named
/// `regex_matches` of the pattern's source and the text.
#[verifier::external_body]
fn host_pattern_matches(p: &HostPattern, text: &str) -> (res: bool)
    ensures
        res == regex_matches(p.source_view(), text@),
{
    p.regex.is_match(text)
}

/// Network access validation errors.
#[derive(Debug)]
pub enum NetworkError {
    /// Network access disabled.
    AccessDisabled,
    /// The host is not in the whitelist.
    HostNotAllowed(String),
    /// The URL is malformed.
    InvalidUrl(String),
}

/// A `NetworkError` with its text as a character sequence.
pub enum NetworkErrorView {
    AccessDisabled,
    HostNotAllowed(Seq<char>),
    InvalidUrl(Seq<char>),
}

impl View for NetworkError {
    type V = NetworkErrorView;

    open spec fn view(&self) -> NetworkErrorView {
        match self {
            NetworkError::AccessDisabled => NetworkErrorView::AccessDisabled,
            NetworkError::HostNotAllowed(s) => NetworkErrorView::HostNotAllowed(s@),
            NetworkError::InvalidUrl(s) => NetworkErrorView::InvalidUrl(s@),
        }
    }
}

/// The view of a network check's result.
pub open spec fn net_verdict(r: Result<(), NetworkError>) -> Result<(), NetworkErrorView> {
    match r {
        Ok(()) => Ok(()),
        Err(e) => Err(e@),
    }
}

/// The text that `Display` shows for each error.
pub open spec fn network_error_text(e: NetworkErrorView) -> Seq<char> {
    match e {
        NetworkErrorView::AccessDisabled => "Network access disabled"@,
        NetworkErrorView::HostNotAllowed(s) => "Host not in whitelist: "@ + s,
        NetworkErrorView::InvalidUrl(s) => "Invalid URL: "@ + s,
    }
}

impl NetworkError {
    /// The error's message.
    pub fn message(&self) -> (res: String)
        ensures
            res@ == network_error_text(self@),
    {
        match self {
            NetworkError::AccessDisabled => "Network access disabled".to_owned(),
            NetworkError::HostNotAllowed(s) => {
                let mut res = "Host not in whitelist: ".to_owned();
                res.append(s.as_str());
                res
            },
            NetworkError::InvalidUrl(s) => {
                let mut res = "Invalid URL: ".to_owned();
                res.append(s.as_str());
                res
            },
        }
    }
}

/// The regex text of one glob character: `*` any run, `?` any character,
/// `.` a literal dot, anything else itself.
pub open spec fn glob_char_regex(c: char) -> Seq<char> {
    if c == '*' {
        ".*"@
    } else if c == '?' {
        seq!['.']
    } else if c == '.' {
        "\\."@
    } else {
        seq![c]
    }
}

/// The regex text of a glob body, character by character.
pub open spec fn glob_body(p: Seq<char>) -> Seq<char>
    decreases p.len(),
{
    if p.len() == 0 {
        seq![]
    } else {
        glob_body(p.drop_last()) + glob_char_regex(p.last())
    }
}

/// The anchored regex of a glob pattern (`*.example.com` gives `^.*\.example\.com$`).
pub open spec fn glob_regex(p: Seq<char>) -> Seq<char> {
    "^"@ + glob_body(p) + "$"@
}

/// Converts a glob pattern to an anchored regex.
pub fn glob_to_regex(pattern: &str) -> (res: String)
    ensures
        res@ == glob_regex(pattern@),
{
    let cs = chars_of(pattern);
    let mut body = String::new();
    let mut i: usize = 0;
    while i < cs.len()
        invariant
            i <= cs@.len(),
            cs@ == pattern@,
            body@ == glob_body(cs@.take(i as int)),
        decreases cs.len() - i,
    {
        let c = cs[i];
        if c == '*' {
            body.append(".*");
        } else if c == '?' {
            push_char(&mut body, '.');
        } else if c == '.' {
            body.append("\\.");
        } else {
            push_char(&mut body, c);
        }
        assert(cs@.take(i + 1).drop_last() =~= cs@.take(i as int));
        i = i + 1;
    }
    assert(cs@.take(cs@.len() as int) =~= cs@);
    let mut res = "^".to_owned();
    res.append(body.as_str());
    res.append("$");
    res
}

/// What follows the first of the prefixes `http://`, `https://`, `ftp://`
/// that `url` starts with, or `url` itself.
pub open spec fn without_scheme(url: Seq<char>) -> Seq<char> {
    if begins_with(url, "http://"@) {
        url.skip("http://"@.len() as int)
    } else if begins_with(url, "https://"@) {
        url.skip("https://"@.len() as int)
    } else if begins_with(url, "ftp://"@) {
        url.skip("ftp://"@.len() as int)
    } else {
        url
    }
}

/// The host of a URL: after the scheme, everything before the first `/` and then before the first `:`.
pub open spec fn url_host(url: Seq<char>) -> Seq<char> {
    before(before(without_scheme(url), '/'), ':')
}

/// Extracts the host from a URL; there always is one, possibly empty.
pub fn extract_host_from_url(url: &str) -> (res: Option<String>)
    ensures
        res matches Some(h) && h@ == url_host(url@),
{
    let cs = chars_of(url);
    let http = chars_of("http://");
    let https = chars_of("https://");
    let ftp = chars_of("ftp://");
    let rest = if starts_with(&cs, &http) {
        slice_chars(&cs, http.len(), cs.len())
    } else if starts_with(&cs, &https) {
        slice_chars(&cs, https.len(), cs.len())
    } else if starts_with(&cs, &ftp) {
        slice_chars(&cs, ftp.len(), cs.len())
    } else {
        slice_chars(&cs, 0, cs.len())
    };
    assert(rest@ =~= without_scheme(url@));
    let host_port = prefix_before(&rest, '/');
    let host = prefix_before(&host_port, ':');
    Some(string_of(&host))
}

/// The commands that commonly need network access.
pub open spec fn network_commands() -> Seq<Seq<char>> {
    seq!["curl"@, "wget"@, "git"@, "npm"@, "yarn"@, "cargo"@, "pip"@, "python"@, "node"@, "go"@]
}

/// What a network whitelist reads: whether it is enabled and the regex
/// sources of its host patterns.
pub struct NetworkWhitelistView {
    pub enabled: bool,
    pub patterns: Seq<Seq<char>>,
}

/// Network whitelist validator.
#[derive(Debug)]
pub struct NetworkWhitelist {
    enabled: bool,
    allowed_hosts: Vec<HostPattern>,
}

impl View for NetworkWhitelist {
    type V = NetworkWhitelistView;

    closed spec fn view(&self) -> NetworkWhitelistView {
        NetworkWhitelistView {
            enabled: self.enabled,
            patterns: self.allowed_hosts@.map_values(|p: HostPattern| p.source_view()),
        }
    }
}

/// The regex sources of a list of glob patterns.
pub open spec fn glob_regexes(patterns: Seq<String>) -> Seq<Seq<char>> {
    patterns.map_values(|p: String| glob_regex(p@))
}

/// Some host pattern matches `host`.
pub open spec fn host_matches(patterns: Seq<Seq<char>>, host: Seq<char>) -> bool {
    exists|i: int| 0 <= i < patterns.len() && regex_matches(#[trigger] patterns[i], host)
}

/// The outcome of checking `host` against a whitelist.
pub open spec fn host_outcome(v: NetworkWhitelistView, host: Seq<char>) -> Result<
    (),
    NetworkErrorView,
> {
    if !v.enabled || host_matches(v.patterns, host) {
        Ok(())
    } else {
        Err(NetworkErrorView::HostNotAllowed(host))
    }
}

impl Default for NetworkWhitelist {
    fn default() -> (res: Self)
        ensures
            !res@.enabled,
            res@.patterns.len() == 0,
    {
        NetworkWhitelist { enabled: false, allowed_hosts: Vec::new() }
    }
}

/// Whether `cmd` is one of the commands that commonly need the network.
fn is_network_command(cmd: &[char]) -> (res: bool)
    ensures
        res == network_commands().contains(cmd@),
{
    let names: [&str; 10] = ["curl", "wget", "git", "npm", "yarn", "cargo", "pip", "python", "node", "go"];
    let mut i: usize = 0;
    while i < 10
        invariant
            i <= 10,
            names@.map_values(|s: &str| s@) == network_commands(),
            forall|k: int| 0 <= k < i ==> #[trigger] network_commands()[k] != cmd@,
        decreases 10 - i,
    {
        let n = chars_of(names[i]);
        assert(network_commands()[i as int] == names@[i as int]@);
        if same_chars(&n, &cmd) {
            assert(network_commands()[i as int] == cmd@);
            return true;
        }
        i = i + 1;
    }
    false
}

impl NetworkWhitelist {
    /// Creates a network whitelist. When it is disabled, every host is
    /// allowed and the patterns are not compiled; when it is enabled, each
    /// glob pattern is converted to an anchored regex and compiled, and the
    /// first pattern that does not compile gives the error.
    pub fn new(enabled: bool, patterns: Vec<String>) -> (res: Result<Self, regex::Error>)
        ensures
            res is Ok <==> (!enabled || forall|i: int|
                0 <= i < patterns@.len() ==> regex_compiles(#[trigger] glob_regexes(patterns@)[i])),
            res matches Ok(w) ==> w@.enabled == enabled && w@.patterns == (if enabled {
                glob_regexes(patterns@)
            } else {
                Seq::<Seq<char>>::empty()
            }),
    {
        let mut allowed_hosts: Vec<HostPattern> = Vec::new();
        if enabled {
            let mut i: usize = 0;
            while i < patterns.len()
                invariant
                    enabled,
                    i <= patterns@.len(),
                    allowed_hosts@.map_values(|p: HostPattern| p.source_view()) == glob_regexes(
                        patterns@,
                    ).take(i as int),
                    forall|k: int|
                        0 <= k < i ==> regex_compiles(#[trigger] glob_regexes(patterns@)[k]),
                decreases patterns.len() - i,
            {
                let source = glob_to_regex(patterns[i].as_str());
                assert(source@ == glob_regexes(patterns@)[i as int]);
                let ghost before = allowed_hosts@;
                match compile_host_pattern(source) {
                    Ok(p) => {
                        allowed_hosts.push(p);
                        assert(allowed_hosts@ == before.push(p));
                        assert(before.push(p).map_values(|p: HostPattern| p.source_view())
                            =~= before.map_values(|p: HostPattern| p.source_view()).push(
                            p.source_view(),
                        ));
                        assert(allowed_hosts@.map_values(|p: HostPattern| p.source_view())
                            =~= glob_regexes(patterns@).take(i + 1));
                    },
                    Err(e) => {
                        assert(!regex_compiles(glob_regexes(patterns@)[i as int]));
                        return Err(e);
                    },
                }
                i = i + 1;
            }
            assert(glob_regexes(patterns@).take(patterns@.len() as int) =~= glob_regexes(
                patterns@,
            ));
        } else {
            assert(allowed_hosts@.map_values(|p: HostPattern| p.source_view())
                =~= Seq::<Seq<char>>::empty());
        }
        Ok(NetworkWhitelist { enabled, allowed_hosts })
    }

    /// Checks whether network access to `host` is allowed.
    pub fn is_host_allowed(&self, host: &str) -> (res: Result<(), NetworkError>)
        ensures
            net_verdict(res) == host_outcome(self@, host@),
    {
        if !self.enabled {
            return Ok(());
        }
        let mut i: usize = 0;
        while i < self.allowed_hosts.len()
            invariant
                i <= self.allowed_hosts@.len(),
                forall|k: int|
                    0 <= k < i ==> !regex_matches(
                        #[trigger] self@.patterns[k],
                        host@,
                    ),
            decreases self.allowed_hosts.len() - i,
        {
            if host_pattern_matches(&self.allowed_hosts[i], host) {
                assert(regex_matches(self@.patterns[i as int], host@));
                return Ok(());
            }
            i = i + 1;
        }
        Err(NetworkError::HostNotAllowed(host.to_owned()))
    }

    /// Whether `command` may use the network: always when the whitelist is
    /// disabled, and otherwise when its first word is a command that
    /// commonly needs the network.
    pub fn is_command_allowed(&self, command: &str) -> (res: bool)
        ensures
            res == (!self@.enabled || network_commands().contains(
                match first_word(command@) {
                    Some(w) => w,
                    None => Seq::<char>::empty(),
                },
            )),
    {
        if !self.enabled {
            return true;
        }
        let cs = chars_of(command);
        let main_cmd = match first_word_of(&cs) {
            Some(w) => w,
            None => Vec::new(),
        };
        let ghost target = match first_word(command@) {
            Some(w) => w,
            None => Seq::<char>::empty(),
        };
        assert(main_cmd@ == target);
        is_network_command(&main_cmd)
    }

    /// Validates a URL: its host must be allowed.
    pub fn validate_url(&self, url: &str) -> (res: Result<(), NetworkError>)
        ensures
            net_verdict(res) == (if !self@.enabled {
                Ok(())
            } else {
                host_outcome(self@, url_host(url@))
            }),
    {
        if !self.enabled {
            return Ok(());
        }
        let host = match extract_host_from_url(url) {
            Some(h) => h,
            None => {
                return Err(NetworkError::InvalidUrl(url.to_owned()));
            },
        };
        self.is_host_allowed(host.as_str())
    }
}

/// A disabled whitelist allows every host.
pub proof fn law_disabled_allows_every_host(v: NetworkWhitelistView, host: Seq<char>)
    requires
        !v.enabled,
    ensures
        host_outcome(v, host) is Ok,
{
}

/// An enabled whitelist without patterns allows no host.
pub proof fn law_empty_whitelist_allows_no_host(v: NetworkWhitelistView, host: Seq<char>)
    requires
        v.enabled,
        v.patterns.len() == 0,
    ensures
        host_outcome(v, host) == Err::<(), NetworkErrorView>(NetworkErrorView::HostNotAllowed(host)),
{
}

/// The host of a URL holds neither `/` nor `:`.
pub proof fn law_host_has_no_separator(url: Seq<char>)
    ensures
        !has_char(url_host(url), '/'),
        !has_char(url_host(url), ':'),
{
    let a = without_scheme(url);
    let b = before(a, '/');
    lemma_run_until_bound(a, '/');
    lemma_run_until_bound(b, ':');
    assert forall|i: int| 0 <= i < url_host(url).len() implies url_host(url)[i] != '/' && url_host(url)[i] != ':' by {
        assert(url_host(url)[i] == b[i]);
        assert(b[i] == a[i]);
    }
}

} // verus!
