//! The command whitelist of the bash sandbox.
use vstd::prelude::*;

use crate::text::{chars_of, first_word, first_word_of, string_of};

verus! {

/// The commands allowed by default, in the order in which they are listed.
pub open spec fn default_commands() -> Seq<Seq<char>> {
    seq![
        // File operations
        "cat"@, "ls"@, "cp"@, "mv"@, "rm"@, "touch"@, "mkdir"@, "rmdir"@, "find"@, "grep"@,
        "head"@, "tail"@, "wc"@, "chmod"@, "chown"@,
        // Text processing
        "echo"@, "printf"@, "sed"@, "awk"@, "cut"@, "sort"@, "uniq"@, "tr"@, "xargs"@, "diff"@,
        "comm"@,
        // System info
        "pwd"@, "uname"@, "date"@, "id"@, "whoami"@, "hostname"@, "which"@, "type"@,
        // Compression
        "tar"@, "gzip"@, "gunzip"@, "zip"@, "unzip"@, "bzip2"@, "bunzip2"@,
        // Development tools
        "git"@, "cargo"@, "rustc"@, "npm"@, "yarn"@, "node"@, "python"@, "pip"@, "go"@,
        "javac"@, "java"@,
        // Utilities
        "tee"@, "basename"@, "dirname"@, "readlink"@, "realpath"@, "test"@, "["@,
    ]
}

/// The commands allowed by default, as strings.
pub fn default_whitelist() -> (res: Vec<String>)
    ensures
        res@.map_values(|s: String| s@) == default_commands(),
{
    let names: [&str; 58] = [
        "cat", "ls", "cp", "mv", "rm", "touch", "mkdir", "rmdir", "find", "grep", "head", "tail",
        "wc", "chmod", "chown", "echo", "printf", "sed", "awk", "cut", "sort", "uniq", "tr",
        "xargs", "diff", "comm", "pwd", "uname", "date", "id", "whoami", "hostname", "which",
        "type", "tar", "gzip", "gunzip", "zip", "unzip", "bzip2", "bunzip2", "git", "cargo",
        "rustc", "npm", "yarn", "node", "python", "pip", "go", "javac", "java", "tee",
        "basename", "dirname", "readlink", "realpath", "test",
    ];
    let mut res: Vec<String> = Vec::new();
    let mut i: usize = 0;
    while i < 58
        invariant
            i <= 58,
            res@.len() == i,
            forall|k: int| 0 <= k < i ==> #[trigger] res@[k]@ == names@[k]@,
        decreases 58 - i,
    {
        res.push(names[i].to_owned());
        i = i + 1;
    }
    res.push("[".to_owned());
    assert(res@.map_values(|s: String| s@) =~= default_commands());
    res
}

/// Whether some element of `v` has the view `s`.
pub open spec fn holds_view(v: Seq<String>, s: Seq<char>) -> bool {
    exists|i: int| 0 <= i < v.len() && (#[trigger] v[i])@ == s
}

/// No two elements of `v` have the same view.
pub open spec fn distinct_views(v: Seq<String>) -> bool {
    forall|i: int, j: int| 0 <= i < v.len() && 0 <= j < v.len() && i != j ==> (#[trigger] v[i])@
        != (#[trigger] v[j])@
}

/// The set of the views of the elements of `v`.
pub open spec fn view_set(v: Seq<String>) -> Set<Seq<char>> {
    Set::new(|s: Seq<char>| holds_view(v, s))
}

/// Command whitelist validator: a set of command names.
#[derive(Debug)]
pub struct Whitelist {
    commands: Vec<String>,
}

impl View for Whitelist {
    type V = Set<Seq<char>>;

    closed spec fn view(&self) -> Set<Seq<char>> {
        view_set(self.commands@)
    }
}

/// The index of an element of `v` with view `s`, if any.
fn position_of(v: &Vec<String>, s: &String) -> (res: Option<usize>)
    ensures
        match res {
            Some(i) => i < v@.len() && v@[i as int]@ == s@,
            None => !holds_view(v@, s@),
        },
{
    let mut i: usize = 0;
    while i < v.len()
        invariant
            i <= v@.len(),
            forall|k: int| 0 <= k < i ==> (#[trigger] v@[k])@ != s@,
        decreases v.len() - i,
    {
        if v[i] == *s {
            return Some(i);
        }
        i = i + 1;
    }
    None
}

/// Adds `s` to `v` unless an equal string is already there.
fn insert_new(v: &mut Vec<String>, s: String)
    requires
        distinct_views(old(v)@),
    ensures
        distinct_views(final(v)@),
        view_set(final(v)@) == view_set(old(v)@).insert(s@),
{
    match position_of(v, &s) {
        Some(_) => {
            assert(view_set(v@) =~= view_set(v@).insert(s@));
        },
        None => {
            let ghost before = v@;
            v.push(s);
            assert forall|t: Seq<char>| holds_view(v@, t) <==> holds_view(before, t) || t == s@ by {
                if holds_view(before, t) {
                    let i = choose|i: int| 0 <= i < before.len() && (#[trigger] before[i])@ == t;
                    assert(v@[i] == before[i]);
                }
                if t == s@ {
                    assert(v@[before.len() as int]@ == t);
                }
                if holds_view(v@, t) {
                    let i = choose|i: int| 0 <= i < v@.len() && (#[trigger] v@[i])@ == t;
                    if i < before.len() {
                        assert(before[i] == v@[i]);
                    }
                }
            }
            assert(view_set(v@) =~= view_set(before).insert(s@));
        },
    }
}

/// The set of the default commands.
pub open spec fn default_set() -> Set<Seq<char>> {
    default_commands().to_set()
}

/// Adding an element adds its view.
proof fn lemma_view_set_push(v: Seq<String>, x: String)
    ensures
        view_set(v.push(x)) == view_set(v).insert(x@),
{
    assert forall|t: Seq<char>| holds_view(v.push(x), t) <==> holds_view(v, t) || t == x@ by {
        if holds_view(v, t) {
            let i = choose|i: int| 0 <= i < v.len() && (#[trigger] v[i])@ == t;
            assert(v.push(x)[i] == v[i]);
        }
        if t == x@ {
            assert(v.push(x)[v.len() as int]@ == t);
        }
        if holds_view(v.push(x), t) {
            let i = choose|i: int| 0 <= i < v.push(x).len() && (#[trigger] v.push(x)[i])@ == t;
            if i < v.len() {
                assert(v[i] == v.push(x)[i]);
            }
        }
    }
    assert forall|t: Seq<char>| view_set(v.push(x)).contains(t) <==> view_set(v).insert(x@).contains(t) by {
        assert(view_set(v.push(x)).contains(t) == holds_view(v.push(x), t));
        assert(view_set(v).contains(t) == holds_view(v, t));
    }
    assert(view_set(v.push(x)) =~= view_set(v).insert(x@));
}

proof fn lemma_view_set_of_defaults(v: Seq<String>)
    requires
        v.map_values(|s: String| s@) == default_commands(),
    ensures
        view_set(v) == default_set(),
{
    let m = v.map_values(|s: String| s@);
    assert forall|t: Seq<char>| view_set(v).contains(t) <==> default_set().contains(t) by {
        if view_set(v).contains(t) {
            let i = choose|i: int| 0 <= i < v.len() && (#[trigger] v[i])@ == t;
            assert(m[i] == t);
        }
        if default_set().contains(t) {
            let i = choose|i: int| 0 <= i < m.len() && m[i] == t;
            assert(v[i]@ == t);
        }
    }
    assert(view_set(v) =~= default_set());
}

impl Whitelist {
    /// No command is listed twice.
    #[verifier::type_invariant]
    closed spec fn no_repeats(&self) -> bool {
        distinct_views(self.commands@)
    }

    /// Whitelist with the default commands plus `extra_commands`.
    pub fn new(extra_commands: Vec<String>) -> (res: Self)
        ensures
            res@ == default_set().union(view_set(extra_commands@)),
    {
        let defaults = default_whitelist();
        let mut commands: Vec<String> = Vec::new();
        let mut i: usize = 0;
        while i < defaults.len()
            invariant
                i <= defaults@.len(),
                distinct_views(commands@),
                view_set(commands@) == view_set(defaults@.take(i as int)),
            decreases defaults.len() - i,
        {
            let ghost before = commands@;
            insert_new(&mut commands, defaults[i].clone());
            proof {
                assert(defaults@.take(i + 1) =~= defaults@.take(i as int).push(defaults@[i as int]));
                lemma_view_set_push(defaults@.take(i as int), defaults@[i as int]);
            }
            i = i + 1;
        }
        assert(defaults@.take(defaults@.len() as int) =~= defaults@);
        proof {
            lemma_view_set_of_defaults(defaults@);
            assert(view_set(extra_commands@.take(0)) =~= Set::empty());
            assert(default_set().union(Set::empty()) =~= default_set());
        }
        let mut j: usize = 0;
        while j < extra_commands.len()
            invariant
                j <= extra_commands@.len(),
                distinct_views(commands@),
                view_set(commands@) == default_set().union(
                    view_set(extra_commands@.take(j as int)),
                ),
            decreases extra_commands.len() - j,
        {
            insert_new(&mut commands, extra_commands[j].clone());
            proof {
                assert(extra_commands@.take(j + 1) =~= extra_commands@.take(j as int).push(
                    extra_commands@[j as int],
                ));
                lemma_view_set_push(extra_commands@.take(j as int), extra_commands@[j as int]);
                assert(default_set().union(view_set(extra_commands@.take(j + 1))) =~= default_set().union(
                    view_set(extra_commands@.take(j as int)),
                ).insert(extra_commands@[j as int]@));
            }
            j = j + 1;
        }
        assert(extra_commands@.take(extra_commands@.len() as int) =~= extra_commands@);
        Whitelist { commands }
    }

    /// Whether `command` is one of the allowed commands.
    pub fn is_allowed(&self, command: &str) -> (res: bool)
        ensures
            res == self@.contains(command@),
    {
        let c = command.to_owned();
        match position_of(&self.commands, &c) {
            Some(i) => {
                assert(holds_view(self.commands@, command@));
                true
            },
            None => false,
        }
    }

    /// The allowed commands, each once.
    pub fn allowed_commands(&self) -> (res: Vec<String>)
        ensures
            view_set(res@) == self@,
            distinct_views(res@),
    {
        proof {
            use_type_invariant(self);
        }
        let mut res: Vec<String> = Vec::new();
        let mut i: usize = 0;
        while i < self.commands.len()
            invariant
                i <= self.commands@.len(),
                res@.len() == i,
                forall|k: int| 0 <= k < i ==> #[trigger] res@[k]@ == self.commands@[k]@,
            decreases self.commands.len() - i,
        {
            res.push(self.commands[i].clone());
            i = i + 1;
        }
        assert forall|t: Seq<char>| holds_view(res@, t) <==> holds_view(self.commands@, t) by {
            if holds_view(res@, t) {
                let k = choose|k: int| 0 <= k < res@.len() && (#[trigger] res@[k])@ == t;
                assert(self.commands@[k]@ == t);
            }
            if holds_view(self.commands@, t) {
                let k = choose|k: int| 0 <= k < self.commands@.len() && (#[trigger] self.commands@[k])@ == t;
                assert(res@[k]@ == t);
            }
        }
        assert(view_set(res@) =~= view_set(self.commands@));
        res
    }
}

impl Default for Whitelist {
    fn default() -> (res: Self)
        ensures
            res@ == default_set(),
    {
        let res = Whitelist::new(Vec::new());
        assert(view_set(Seq::<String>::empty()) =~= Set::empty());
        assert(default_set().union(Set::empty()) =~= default_set());
        res
    }
}

/// The main command of a command line: its first word (`"git status"` gives `"git"`).
pub fn extract_command(command_str: &str) -> (res: Option<String>)
    ensures
        match res {
            Some(c) => first_word(command_str@) == Some(c@),
            None => first_word(command_str@) is None,
        },
{
    let cs = chars_of(command_str);
    match first_word_of(cs.as_slice()) {
        Some(w) => Some(string_of(w.as_slice())),
        None => None,
    }
}

/// The default commands are allowed whatever extra commands are configured.
pub proof fn law_default_commands_allowed(extra: Seq<String>, c: Seq<char>)
    requires
        default_commands().contains(c),
    ensures
        default_set().union(view_set(extra)).contains(c),
{
}

} // verus!
