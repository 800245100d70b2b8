//! The project's `convex-doctor.toml` settings: rules turned off, ignored files, the CI floor.
use vstd::prelude::*;

use crate::text::{
    chars_of, has_prefix, owned, push_str, skip_chars, starts_with, str_eq, trim_start_char,
    trim_start_matches_char,
};

use crate::diagnostic::{lemma_models_push, models, Diagnostic, DiagnosticModel, Severity};
use crate::analysis::{lookup, NameMap};
use crate::rules::{lemma_select_map_step, select_map};

verus! {

/// Whether `glob::Pattern::new` accepts `pattern` as glob syntax.
pub uninterp spec fn glob_pattern_valid(pattern: Seq<char>) -> bool;

/// Whether the glob compiled from `pattern` matches `text` (`glob::Pattern::matches`).
pub uninterp spec fn glob_pattern_matches(pattern: Seq<char>, text: Seq<char>) -> bool;

/// Compiles `pattern` with `glob::Pattern::new` and, when it compiles, tests `text` against it
/// with `glob::Pattern::matches`. `None` when the pattern is not valid glob syntax. Both
/// results are functions of the two strings alone; what they are is left to the glob crate.
#[verifier::external_body]
pub(crate) fn glob_match(pattern: &str, text: &str) -> (r: Option<bool>)
    ensures
        r.is_some() == glob_pattern_valid(pattern@),
        r.is_some() ==> r.unwrap() == glob_pattern_matches(pattern@, text@),
{
    match glob::Pattern::new(pattern) {
        Ok(compiled) => Some(compiled.matches(text)),
        Err(_) => None,
    }
}

/// The glob `pattern` compiles and matches `text`.
pub open spec fn glob_hits(pattern: Seq<char>, text: Seq<char>) -> bool {
    glob_pattern_valid(pattern) && glob_pattern_matches(pattern, text)
}

/// Settings of the tool, read from `convex-doctor.toml` (defaults when the file is absent).
#[derive(Debug, Clone)]
pub struct Config {
    /// Rule settings, by rule id; the setting `"off"` disables a rule.
    pub rules: NameMap,
    pub ignore: IgnoreConfig,
    pub ci: CiConfig,
    pub convex: ConvexConfig,
}

/// How strictly findings are reported.
#[derive(Debug, Clone, Copy, PartialEq, Eq, Structural)]
pub enum Strictness {
    /// Findings as the rules report them.
    Standard,
    /// Information is raised to warnings.
    Strict,
    /// Information and the warnings of noisy rules are dropped.
    LowNoise,
}

/// Settings tied to the Convex guidelines the rules follow.
#[derive(Debug, Clone)]
pub struct ConvexConfig {
    /// The version of the Convex guidelines the rules follow.
    pub guidance_version: String,
    pub strictness: Strictness,
}

/// The version of the Convex guidelines that the rules follow by default.
pub const GUIDANCE_VERSION: &'static str = "v0.241.0";

impl Default for ConvexConfig {
    fn default() -> (r: Self)
        ensures
            r.guidance_version@ == GUIDANCE_VERSION@,
            r.strictness == Strictness::Standard,
    {
        ConvexConfig { guidance_version: owned(GUIDANCE_VERSION), strictness: Strictness::Standard }
    }
}

/// Files left out of the scan.
#[derive(Debug, Clone)]
pub struct IgnoreConfig {
    /// Glob patterns, relative to the project root.
    pub files: Vec<String>,
}

/// Settings for use in continuous integration.
#[derive(Debug, Clone)]
pub struct CiConfig {
    /// The run fails when the score falls below this value.
    pub fail_below: u32,
}

/// The pattern that the default configuration ignores: the generated code.
pub const GENERATED_GLOB: &'static str = "convex/_generated/**";

impl Default for IgnoreConfig {
    fn default() -> (r: Self)
        ensures
            r.files@.len() == 1,
            r.files@[0]@ == GENERATED_GLOB@,
    {
        let mut files: Vec<String> = Vec::new();
        files.push(owned(GENERATED_GLOB));
        IgnoreConfig { files }
    }
}

impl Default for CiConfig {
    fn default() -> (r: Self)
        ensures
            r.fail_below == 0,
    {
        CiConfig { fail_below: 0 }
    }
}

impl Default for Config {
    fn default() -> (r: Self)
        ensures
            r.rules@.len() == 0,
            r.ignore.files@.len() == 1,
            r.ignore.files@[0]@ == GENERATED_GLOB@,
            r.ci.fail_below == 0,
            r.convex.guidance_version@ == GUIDANCE_VERSION@,
            r.convex.strictness == Strictness::Standard,
    {
        Config {
            rules: NameMap::new(),
            ignore: IgnoreConfig::default(),
            ci: CiConfig::default(),
            convex: ConvexConfig::default(),
        }
    }
}

/// The setting of rule `id`: the value of the first entry for it, as a map lookup gives it.
pub open spec fn rule_setting(rules: Seq<(String, String)>, id: Seq<char>) -> Option<Seq<char>>
    decreases rules.len(),
{
    if rules.len() == 0 {
        None
    } else if rules[0].0@ == id {
        Some(rules[0].1@)
    } else {
        rule_setting(rules.drop_first(), id)
    }
}

/// A rule's setting is what the map of settings holds for its id.
proof fn lemma_rule_setting_is_lookup(rules: Seq<(String, String)>, id: Seq<char>)
    ensures
        rule_setting(rules, id) == lookup(rules, id),
    decreases rules.len(),
{
    if rules.len() > 0 {
        lemma_rule_setting_is_lookup(rules.drop_first(), id);
    }
}

/// A rule is enabled unless its setting is `"off"`.
pub open spec fn rule_enabled(rules: Seq<(String, String)>, id: Seq<char>) -> bool {
    rule_setting(rules, id) != Some("off"@)
}

/// `path` relative to `root`: without the prefix `root/`, else without a leading `./`.
pub open spec fn relative_path(root: Seq<char>, path: Seq<char>) -> Seq<char> {
    let root_dir = root.push('/');
    if has_prefix(path, root_dir) {
        path.skip(root_dir.len() as int)
    } else if has_prefix(path, "./"@) {
        path.skip(2)
    } else {
        path
    }
}

/// The last `/`-separated component of `path`.
pub open spec fn last_component(path: Seq<char>) -> Seq<char>
    decreases path.len(),
{
    if path.len() == 0 {
        path
    } else if path.last() == '/' {
        Seq::empty()
    } else {
        last_component(path.drop_last()).push(path.last())
    }
}

/// An ignore pattern covers the relative path `rel`: after leading slashes are dropped, the
/// glob matches the path, or a slash-free glob matches its file name, or the pattern names a
/// directory that holds the path.
pub open spec fn pattern_ignores(pattern: Seq<char>, rel: Seq<char>) -> bool {
    let p = trim_start_char(pattern, '/');
    ||| glob_hits(p, rel)
    ||| (!p.contains('/') && glob_hits(p, last_component(rel)))
    ||| (p.len() > 0 && has_prefix(rel, p.push('/')))
}

/// Some pattern of `files` covers `path` under project root `root`.
pub open spec fn file_ignored(files: Seq<String>, root: Seq<char>, path: Seq<char>) -> bool {
    exists|i: int| 0 <= i < files.len() && pattern_ignores(#[trigger] files[i]@, relative_path(root, path))
}

/// The relative path of `path` under `root`.
pub fn relative_to(root: &str, path: &str) -> (r: String)
    ensures
        r@ == relative_path(root@, path@),
{
    let mut root_dir = owned(root);
    push_str(&mut root_dir, "/");
    proof {
        reveal_strlit("/");
        reveal_strlit("./");
        assert(root_dir@ == root@.push('/'));
    }
    if starts_with(path, root_dir.as_str()) {
        let n = root_dir.as_str().unicode_len();
        skip_chars(path, n)
    } else if starts_with(path, "./") {
        skip_chars(path, 2)
    } else {
        owned(path)
    }
}

/// The last `/`-separated component of `path`.
pub fn file_name_of(path: &str) -> (r: String)
    ensures
        r@ == last_component(path@),
{
    let pv = chars_of(path);
    let mut start: usize = pv.len();
    proof {
        assert(pv@.take(start as int) =~= pv@);
        assert(pv@.skip(start as int) =~= Seq::<char>::empty());
        assert(last_component(path@) + Seq::<char>::empty() =~= last_component(path@));
    }
    while start > 0 && pv[start - 1] != '/'
        invariant
            start <= pv.len(),
            pv@ == path@,
            last_component(path@) == last_component(pv@.take(start as int)) + pv@.skip(start as int),
        decreases start,
    {
        proof {
            assert(pv@.take(start as int).drop_last() =~= pv@.take(start - 1));
            assert(pv@.skip(start - 1) =~= seq![pv@[start - 1]] + pv@.skip(start as int));
            assert(last_component(pv@.take(start as int)) == last_component(pv@.take(start - 1)).push(pv@[start - 1]));
            assert(last_component(pv@.take(start - 1)).push(pv@[start - 1]) + pv@.skip(start as int)
                =~= last_component(pv@.take(start - 1)) + pv@.skip(start - 1));
        }
        start = start - 1;
    }
    proof {
        if start > 0 {
            assert(pv@.take(start as int).last() == '/');
        }
        assert(last_component(pv@.take(start as int)) =~= Seq::<char>::empty());
        assert(Seq::<char>::empty() + pv@.skip(start as int) =~= pv@.skip(start as int));
    }
    skip_chars(path, start)
}

/// Whether `s` holds the character `c`.
fn has_char(s: &str, c: char) -> (b: bool)
    ensures
        b == s@.contains(c),
{
    let sv = chars_of(s);
    let mut i: usize = 0;
    while i < sv.len()
        invariant
            i <= sv.len(),
            sv@ == s@,
            forall|j: int| 0 <= j < i ==> sv@[j] != c,
        decreases sv.len() - i,
    {
        if sv[i] == c {
            return true;
        }
        i = i + 1;
    }
    false
}

/// Whether one ignore pattern covers the relative path `rel`.
pub fn pattern_covers(pattern: &str, rel: &str) -> (b: bool)
    ensures
        b == pattern_ignores(pattern@, rel@),
{
    let p = trim_start_matches_char(pattern, '/');
    let ghost pv = trim_start_char(pattern@, '/');
    let whole = match glob_match(p.as_str(), rel) {
        Some(hit) => hit,
        None => false,
    };
    if whole {
        return true;
    }
    if !has_char(p.as_str(), '/') {
        let name = file_name_of(rel);
        let by_name = match glob_match(p.as_str(), name.as_str()) {
            Some(hit) => hit,
            None => false,
        };
        if by_name {
            return true;
        }
    }
    let plen = p.as_str().unicode_len();
    if plen > 0 {
        let mut dir = p.clone();
        push_str(&mut dir, "/");
        proof {
            reveal_strlit("/");
            assert(dir@ =~= pv.push('/'));
        }
        if starts_with(rel, dir.as_str()) {
            return true;
        }
    }
    false
}

impl Config {
    /// Whether rule `rule_id` runs: every rule runs unless its setting is `"off"`.
    pub fn is_rule_enabled(&self, rule_id: &str) -> (b: bool)
        ensures
            b == rule_enabled(self.rules@, rule_id@),
    {
        proof {
            lemma_rule_setting_is_lookup(self.rules@, rule_id@);
            reveal_strlit("off");
        }
        match self.rules.get(rule_id) {
            Some(setting) => !str_eq(setting.as_str(), "off"),
            None => true,
        }
    }

    /// Sets rule `rule_id` to `setting`, replacing an earlier setting of it.
    pub fn set_rule(&mut self, rule_id: &str, setting: &str)
        ensures
            final(self).ignore == old(self).ignore,
            final(self).ci == old(self).ci,
            final(self).convex == old(self).convex,
            rule_setting(final(self).rules@, rule_id@) == Some(setting@),
            forall|other: Seq<char>| other != rule_id@ ==> rule_setting(final(self).rules@, other)
                == rule_setting(old(self).rules@, other),
    {
        let ghost before = self.rules@;
        self.rules.insert(owned(rule_id), owned(setting));
        proof {
            lemma_rule_setting_is_lookup(self.rules@, rule_id@);
            assert forall|other: Seq<char>| other != rule_id@ implies rule_setting(self.rules@, other)
                == rule_setting(before, other) by {
                lemma_rule_setting_is_lookup(self.rules@, other);
                lemma_rule_setting_is_lookup(before, other);
            }
        }
    }

    /// Whether `path` is left out of the scan of the project at `root`: some ignore pattern,
    /// taken relative to the root, covers it.
    pub fn is_file_ignored(&self, root: &str, path: &str) -> (b: bool)
        ensures
            b == file_ignored(self.ignore.files@, root@, path@),
    {
        let rel = relative_to(root, path);
        let mut i: usize = 0;
        while i < self.ignore.files.len()
            invariant
                i <= self.ignore.files.len(),
                rel@ == relative_path(root@, path@),
                forall|j: int| 0 <= j < i ==> !pattern_ignores(#[trigger] self.ignore.files@[j]@, rel@),
            decreases self.ignore.files.len() - i,
        {
            if pattern_covers(self.ignore.files[i].as_str(), rel.as_str()) {
                return true;
            }
            i = i + 1;
        }
        false
    }
}


/// A rule's setting decides whether it runs: it runs unless the setting is `"off"`.
pub proof fn lemma_setting_decides_enabled(rules: Seq<(String, String)>, id: Seq<char>, setting: Seq<char>)
    requires
        rule_setting(rules, id) == Some(setting),
    ensures
        rule_enabled(rules, id) == (setting != "off"@),
{
}

/// A rule without a setting runs.
pub proof fn lemma_unset_rule_enabled(rules: Seq<(String, String)>, id: Seq<char>)
    requires
        rule_setting(rules, id) is None,
    ensures
        rule_enabled(rules, id),
{
}


/// The rules whose warnings the low-noise setting drops.
pub open spec fn noisy_rules() -> Seq<Seq<char>> {
    seq!["correctness/replace-vs-patch"@]
}

/// A finding that the low-noise setting keeps: an error, or a warning of a rule that is not
/// noisy.
pub open spec fn kept_when_quiet() -> spec_fn(DiagnosticModel) -> bool {
    |d: DiagnosticModel| match d.severity {
        Severity::Error => true,
        Severity::Warning => !noisy_rules().contains(d.rule),
        Severity::Info => false,
    }
}

/// A finding with information raised to a warning.
pub open spec fn raised() -> spec_fn(DiagnosticModel) -> DiagnosticModel {
    |d: DiagnosticModel| match d.severity {
        Severity::Info => DiagnosticModel { severity: Severity::Warning, ..d },
        _ => d,
    }
}

/// The findings as the strictness setting reports them.
pub open spec fn with_strictness(s: Strictness, ds: Seq<DiagnosticModel>) -> Seq<DiagnosticModel> {
    match s {
        Strictness::Standard => ds,
        Strictness::Strict => ds.map_values(raised()),
        Strictness::LowNoise => select_map(ds, kept_when_quiet(), |d: DiagnosticModel| d),
    }
}

impl Config {
    /// Applies the strictness setting to the findings of a run: unchanged by default, with
    /// information raised to warnings when strict, and keeping only errors and the warnings of
    /// rules that are not noisy when low-noise.
    pub fn apply_strictness(&self, diagnostics: &mut Vec<Diagnostic>)
        ensures
            models(final(diagnostics)@) == with_strictness(self.convex.strictness, models(old(diagnostics)@)),
    {
        let ghost ms = models(diagnostics@);
        match self.convex.strictness {
            Strictness::Standard => {},
            Strictness::Strict => {
                let mut out: Vec<Diagnostic> = Vec::new();
                let n = diagnostics.len();
                for i in 0..n
                    invariant
                        n == diagnostics.len(),
                        ms == models(diagnostics@),
                        models(out@) == ms.take(i as int).map_values(raised()),
                {
                    let d = &diagnostics[i];
                    let severity = match d.severity {
                        Severity::Info => Severity::Warning,
                        other => other,
                    };
                    let e = Diagnostic {
                        rule: owned(d.rule.as_str()),
                        severity,
                        category: d.category,
                        message: owned(d.message.as_str()),
                        help: owned(d.help.as_str()),
                        file: owned(d.file.as_str()),
                        line: d.line,
                        column: d.column,
                    };
                    let ghost before = out@;
                    out.push(e);
                    proof {
                        lemma_models_push(before, e);
                        assert(ms[i as int] == d@);
                        assert(ms.take(i + 1).map_values(raised()) =~= ms.take(i as int).map_values(raised()).push(raised()(ms[i as int])));
                    }
                }
                proof {
                    assert(ms.take(n as int) =~= ms);
                }
                *diagnostics = out;
            },
            Strictness::LowNoise => {
                let ghost keep = kept_when_quiet();
                let ghost id = |d: DiagnosticModel| d;
                let mut out: Vec<Diagnostic> = Vec::new();
                let n = diagnostics.len();
                for i in 0..n
                    invariant
                        n == diagnostics.len(),
                        ms == models(diagnostics@),
                        keep == kept_when_quiet(),
                        id == (|d: DiagnosticModel| d),
                        models(out@) == select_map(ms.take(i as int), keep, id),
                {
                    proof {
                        lemma_select_map_step(ms, i as int, keep, id);
                    }
                    let d = &diagnostics[i];
                    let wanted = match d.severity {
                        Severity::Error => true,
                        Severity::Warning => !str_eq(d.rule.as_str(), "correctness/replace-vs-patch"),
                        Severity::Info => false,
                    };
                    proof {
                        reveal_strlit("correctness/replace-vs-patch");
                        assert(ms[i as int] == d@);
                        assert(noisy_rules().contains(d.rule@) == (d.rule@ == "correctness/replace-vs-patch"@)) by {
                            if noisy_rules().contains(d.rule@) {
                                let k = choose|k: int| 0 <= k < noisy_rules().len() && noisy_rules()[k] == d.rule@;
                            }
                            if d.rule@ == "correctness/replace-vs-patch"@ {
                                assert(noisy_rules()[0] == d.rule@);
                            }
                        }
                        assert(wanted == keep(ms[i as int]));
                    }
                    if wanted {
                        let e = Diagnostic {
                            rule: owned(d.rule.as_str()),
                            severity: d.severity,
                            category: d.category,
                            message: owned(d.message.as_str()),
                            help: owned(d.help.as_str()),
                            file: owned(d.file.as_str()),
                            line: d.line,
                            column: d.column,
                        };
                        let ghost before = out@;
                        out.push(e);
                        proof {
                            lemma_models_push(before, e);
                        }
                    }
                }
                proof {
                    assert(ms.take(n as int) =~= ms);
                }
                *diagnostics = out;
            },
        }
    }
}

} // verus!
