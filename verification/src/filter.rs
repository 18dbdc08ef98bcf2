//! Path filter rules in .gitignore style: which files skip encoding conversion,
//! and which are hidden from the mounted filesystem.

use vstd::prelude::*;
use crate::text::{chars_of, string_of};

verus! {

#[verifier::external_type_specification]
#[verifier::external_body]
pub struct ExGlobSet(globset::GlobSet);

/// Inline filter rules from the configuration.
#[derive(Debug, Clone)]
pub struct FilterConfig {
    /// Rules for passthrough (skip encoding conversion), .gitignore-style syntax.
    pub rules: Vec<String>,
    /// Rules for files and directories hidden from the mounted filesystem.
    pub hidden: Vec<String>,
}

/// A glob pattern together with its compiled matcher. Values are only made by
/// `compile_glob`, so the matcher is always the one compiled from the text.
#[derive(Debug)]
pub struct CompiledGlob {
    text: String,
    set: globset::GlobSet,
}

impl View for CompiledGlob {
    type V = Seq<char>;

    /// A compiled glob is identified by its pattern text.
    closed spec fn view(&self) -> Seq<char> {
        self.text@
    }
}

/// Whether a pattern compiles: `globset::Glob::new` accepts it and `globset::GlobSet::new`
/// builds a matcher from that one glob. (globset reads `\` as an escape on Unix and as a
/// separator on Windows; the name stands for the platform the library runs on.)
pub uninterp spec fn spec_glob_valid(glob: Seq<char>) -> bool;

/// Whether a compiled glob pattern matches a path (`GlobSet::is_match` on the set of
/// that one glob).
pub uninterp spec fn spec_glob_match(glob: Seq<char>, path: Seq<char>) -> bool;

/// The longest pattern, in characters, that is compiled: below it the literal that
/// globset hands to `aho_corasick::AhoCorasick::new` (and unwraps) stays far under the
/// automaton's state limit.
pub open spec fn glob_len_limit() -> int {
    0x1000_0000
}

/// Calls `globset::Glob::new` and, on success, `globset::GlobSet::new` with that one glob.
/// `GlobSet::new` compiles the matcher and reports a regex that does not compile (too
/// deeply nested, or over the size limit) as an error; both errors give `None`. Whether
/// a pattern compiles is named by `spec_glob_valid`; nothing else is stated of the
/// matcher beyond its pattern text. `GlobSet::new` unwraps `AhoCorasick::new` for literal
/// prefixes and suffixes, which fails only past the automaton's state limit: the length
/// bound keeps those inputs out.
#[verifier::external_body]
pub(crate) fn compile_glob(text: &str) -> (r: Option<CompiledGlob>)
    requires
        text@.len() < glob_len_limit(),
    ensures
        r is Some <==> spec_glob_valid(text@),
        r is Some ==> r.unwrap()@ == text@,
{
    match globset::Glob::new(text) {
        Ok(glob) => match globset::GlobSet::new([glob]) {
            Ok(set) => Some(CompiledGlob { text: text.to_string(), set }),
            Err(_) => None,
        },
        Err(_) => None,
    }
}

/// Calls `globset::GlobSet::is_match`; the answer is named by `spec_glob_match`.
#[verifier::external_body]
pub(crate) fn glob_is_match(glob: &CompiledGlob, path: &str) -> (r: bool)
    ensures
        r == spec_glob_match(glob@, path@),
{
    glob.set.is_match(path)
}

/// Unicode White_Space, as `char::is_whitespace` defines it.
pub open spec fn is_ws(c: char) -> bool {
    let u = c as u32;
    (0x09 <= u && u <= 0x0D) || u == 0x20 || u == 0x85 || u == 0xA0 || u == 0x1680 || (0x2000
        <= u && u <= 0x200A) || u == 0x2028 || u == 0x2029 || u == 0x202F || u == 0x205F || u
        == 0x3000
}

/// `s` without its leading white space.
pub open spec fn trim_start(s: Seq<char>) -> Seq<char>
    decreases s.len(),
{
    if s.len() > 0 && is_ws(s[0]) {
        trim_start(s.drop_first())
    } else {
        s
    }
}

/// `s` without its trailing white space.
pub open spec fn trim_end(s: Seq<char>) -> Seq<char>
    decreases s.len(),
{
    if s.len() > 0 && is_ws(s.last()) {
        trim_end(s.drop_last())
    } else {
        s
    }
}

/// `s` without leading and trailing white space (`str::trim`).
pub open spec fn trim(s: Seq<char>) -> Seq<char> {
    trim_end(trim_start(s))
}

/// `s` without its trailing slashes (`str::trim_end_matches('/')`).
pub open spec fn strip_slashes(s: Seq<char>) -> Seq<char>
    decreases s.len(),
{
    if s.len() > 0 && s.last() == '/' {
        strip_slashes(s.drop_last())
    } else {
        s
    }
}

/// The match-all pattern `**`.
pub open spec fn double_star() -> Seq<char> {
    seq!['*', '*']
}

/// A pattern as the filter sees it: the glob text (`None` for the match-all pattern `**`)
/// and whether it is negated.
pub type PatternView = (Option<Seq<char>>, bool);

/// One compiled glob pattern, if `globset` accepts the text.
pub open spec fn glob_entry(g: Seq<char>, negated: bool) -> Seq<PatternView> {
    if spec_glob_valid(g) {
        seq![(Some(g), negated)]
    } else {
        seq![]
    }
}

/// The patterns that one rule line gives. A leading `!` negates the rule (the rest is
/// trimmed); `**` matches everything; `dir/` stands for both `dir` and `dir/**`;
/// patterns that `globset` refuses are dropped.
pub open spec fn line_patterns(line: Seq<char>) -> Seq<PatternView> {
    let negated = line.len() > 0 && line[0] == '!';
    let pat = if negated {
        trim(line.drop_first())
    } else {
        line
    };
    if pat == double_star() {
        seq![(None, negated)]
    } else if pat.len() > 0 && pat.last() == '/' {
        let dir = strip_slashes(pat);
        glob_entry(dir, negated) + glob_entry(dir + seq!['/', '*', '*'], negated)
    } else {
        glob_entry(pat, negated)
    }
}

/// The patterns of a list of rule lines, in order.
pub open spec fn compiled(lines: Seq<Seq<char>>) -> Seq<PatternView>
    decreases lines.len(),
{
    if lines.len() == 0 {
        seq![]
    } else {
        compiled(lines.drop_last()) + line_patterns(lines.last())
    }
}

/// The characters of each string.
pub open spec fn views(lines: Seq<String>) -> Seq<Seq<char>> {
    lines.map_values(|s: String| s@)
}

/// Whether a pattern matches a path.
pub open spec fn pattern_matches(p: PatternView, path: Seq<char>) -> bool {
    match p.0 {
        None => true,
        Some(g) => spec_glob_match(g, path),
    }
}

/// The decision of the first `n` patterns: the last of them that matches decides (a
/// negated one says no); with no match, the answer is no.
pub open spec fn last_match_upto(ps: Seq<PatternView>, path: Seq<char>, n: int) -> bool
    decreases n,
{
    if n <= 0 {
        false
    } else if pattern_matches(ps[n - 1], path) {
        !ps[n - 1].1
    } else {
        last_match_upto(ps, path, n - 1)
    }
}

/// The decision of patterns `ps` on a path, in .gitignore style: the last matching
/// pattern decides, a negated one says no, and no match says no.
pub open spec fn last_match(ps: Seq<PatternView>, path: Seq<char>) -> bool {
    last_match_upto(ps, path, ps.len() as int)
}

/// Whether a path skips encoding conversion under patterns `ps`.
pub open spec fn passthrough(ps: Seq<PatternView>, path: Seq<char>) -> bool {
    last_match(ps, path)
}

/// Whether a path is hidden under patterns `ps` (same syntax and rules as passthrough).
pub open spec fn hidden(ps: Seq<PatternView>, path: Seq<char>) -> bool {
    last_match(ps, path)
}

/// A rule line short enough that every pattern it gives stays under `glob_len_limit`.
pub open spec fn rule_fits(line: Seq<char>) -> bool {
    line.len() + 3 < glob_len_limit()
}

/// Every rule line fits.
pub open spec fn rules_fit(lines: Seq<Seq<char>>) -> bool {
    forall|i: int| 0 <= i < lines.len() ==> rule_fits(#[trigger] lines[i])
}

/// A path with every backslash turned into a slash.
pub open spec fn slashed(p: Seq<char>) -> Seq<char> {
    Seq::new(
        p.len(),
        |i: int|
            if p[i] == '\\' {
                '/'
            } else {
                p[i]
            },
    )
}

#[derive(Debug)]
struct Pattern {
    matcher: Option<CompiledGlob>,
    negated: bool,
}

spec fn pattern_view(p: Pattern) -> PatternView {
    (
        match p.matcher {
            Some(g) => Some(g@),
            None => None,
        },
        p.negated,
    )
}

spec fn pattern_views(ps: Seq<Pattern>) -> Seq<PatternView> {
    ps.map_values(|p: Pattern| pattern_view(p))
}


/// Whether a character is Unicode white space.
pub fn is_whitespace(c: char) -> (r: bool)
    ensures
        r == is_ws(c),
{
    let u = c as u32;
    (0x09 <= u && u <= 0x0D) || u == 0x20 || u == 0x85 || u == 0xA0 || u == 0x1680 || (0x2000
        <= u && u <= 0x200A) || u == 0x2028 || u == 0x2029 || u == 0x202F || u == 0x205F || u
        == 0x3000
}

/// The characters `v[a..b]`.
pub fn sub_chars(v: &[char], a: usize, b: usize) -> (r: Vec<char>)
    requires
        a <= b <= v@.len(),
    ensures
        r@ == v@.subrange(a as int, b as int),
{
    let mut r: Vec<char> = Vec::new();
    let mut i = a;
    while i < b
        invariant
            a <= i <= b <= v@.len(),
            r@ == v@.subrange(a as int, i as int),
        decreases b - i,
    {
        r.push(v[i]);
        i += 1;
    }
    r
}

/// `v` without leading and trailing white space.
pub fn trim_chars(v: &[char]) -> (r: Vec<char>)
    ensures
        r@ == trim(v@),
        r@.len() <= v@.len(),
{
    let n = v.len();
    let mut a: usize = 0;
    assert(v@.subrange(0, n as int) =~= v@);
    while a < n && is_whitespace(v[a])
        invariant
            n == v@.len(),
            a <= n,
            trim_start(v@.subrange(a as int, n as int)) == trim_start(v@),
        decreases n - a,
    {
        assert(v@.subrange(a as int, n as int).drop_first() =~= v@.subrange(a + 1, n as int));
        a += 1;
    }
    assert(trim_start(v@) == v@.subrange(a as int, n as int));
    let mut b: usize = n;
    while b > a && is_whitespace(v[b - 1])
        invariant
            n == v@.len(),
            a <= b <= n,
            trim_start(v@) == v@.subrange(a as int, n as int),
            trim_end(v@.subrange(a as int, b as int)) == trim(v@),
        decreases b,
    {
        assert(v@.subrange(a as int, b as int).drop_last() =~= v@.subrange(a as int, b - 1));
        b -= 1;
    }
    sub_chars(v, a, b)
}

/// `v` without its trailing slashes.
pub fn strip_slash_chars(v: &[char]) -> (r: Vec<char>)
    ensures
        r@ == strip_slashes(v@),
        r@.len() <= v@.len(),
{
    let mut b: usize = v.len();
    assert(v@.subrange(0, b as int) =~= v@);
    while b > 0 && v[b - 1] == '/'
        invariant
            b <= v@.len(),
            strip_slashes(v@.subrange(0, b as int)) == strip_slashes(v@),
        decreases b,
    {
        assert(v@.subrange(0, b as int).drop_last() =~= v@.subrange(0, b - 1));
        b -= 1;
    }
    assert(v@.subrange(0, v@.len() as int) =~= v@);
    sub_chars(v, 0, b)
}

/// Compiles `text` and, when `globset` accepts it, appends it as a pattern.
fn push_glob(patterns: &mut Vec<Pattern>, text: &[char], negated: bool)
    requires
        text@.len() < glob_len_limit(),
    ensures
        pattern_views(final(patterns)@) == pattern_views(old(patterns)@) + glob_entry(text@, negated),
{
    let s = string_of(text);
    match compile_glob(s.as_str()) {
        Some(g) => {
            patterns.push(Pattern { matcher: Some(g), negated });
            assert(pattern_views(final(patterns)@) =~= pattern_views(old(patterns)@) + glob_entry(text@, negated));
        },
        None => {
            assert(pattern_views(final(patterns)@) =~= pattern_views(old(patterns)@) + glob_entry(text@, negated));
        },
    }
}

/// Appends the patterns of one rule line.
fn push_line(patterns: &mut Vec<Pattern>, line: &str)
    requires
        rule_fits(line@),
    ensures
        pattern_views(final(patterns)@) == pattern_views(old(patterns)@) + line_patterns(line@),
{
    let chars = chars_of(line);
    let negated = chars.len() > 0 && chars[0] == '!';
    let pat = if negated {
        let rest = sub_chars(&chars, 1, chars.len());
        assert(rest@ =~= line@.drop_first());
        trim_chars(&rest)
    } else {
        chars
    };
    let n = pat.len();
    if n == 2 && pat[0] == '*' && pat[1] == '*' {
        assert(pat@ =~= double_star());
        patterns.push(Pattern { matcher: None, negated });
        assert(pattern_views(final(patterns)@) =~= pattern_views(old(patterns)@) + line_patterns(line@));
    } else if n > 0 && pat[n - 1] == '/' {
        assert(pat@ != double_star());
        let dir = strip_slash_chars(&pat);
        let mut all = dir.clone();
        all.push('/');
        all.push('*');
        all.push('*');
        assert(all@ =~= dir@ + seq!['/', '*', '*']);
        push_glob(patterns, &dir, negated);
        push_glob(patterns, &all, negated);
        assert(pattern_views(final(patterns)@) =~= pattern_views(old(patterns)@) + line_patterns(line@));
    } else {
        assert(pat@ != double_star());
        push_glob(patterns, &pat, negated);
    }
}

fn compile_patterns(lines: &[String]) -> (r: Vec<Pattern>)
    requires
        rules_fit(views(lines@)),
    ensures
        pattern_views(r@) == compiled(views(lines@)),
{
    let mut patterns: Vec<Pattern> = Vec::new();
    let mut i: usize = 0;
    while i < lines.len()
        invariant
            i <= lines@.len(),
            rules_fit(views(lines@)),
            pattern_views(patterns@) == compiled(views(lines@).subrange(0, i as int)),
        decreases lines@.len() - i,
    {
        assert(views(lines@)[i as int] == lines@[i as int]@);
        push_line(&mut patterns, lines[i].as_str());
        proof {
            let pre = views(lines@).subrange(0, i + 1);
            assert(pre.drop_last() =~= views(lines@).subrange(0, i as int));
            assert(pre.last() == lines@[i as int]@);
        }
        i += 1;
    }
    assert(views(lines@).subrange(0, lines@.len() as int) =~= views(lines@));
    patterns
}

/// A path in the form the patterns are matched against: backslashes become slashes.
pub fn slashed_path(p: &str) -> (r: String)
    ensures
        r@ == slashed(p@),
{
    let chars = chars_of(p);
    let mut out: Vec<char> = Vec::new();
    let mut i: usize = 0;
    while i < chars.len()
        invariant
            chars@ == p@,
            i <= chars@.len(),
            out@ == slashed(p@).subrange(0, i as int),
        decreases chars@.len() - i,
    {
        if chars[i] == '\\' {
            out.push('/');
        } else {
            out.push(chars[i]);
        }
        proof {
            assert(out@ =~= slashed(p@).subrange(0, i + 1));
        }
        i += 1;
    }
    assert(slashed(p@).subrange(0, chars@.len() as int) =~= slashed(p@));
    string_of(&out)
}

fn matches(p: &Pattern, path: &str) -> (r: bool)
    ensures
        r == pattern_matches(pattern_view(*p), path@),
{
    match &p.matcher {
        None => true,
        Some(g) => glob_is_match(g, path),
    }
}

/// Filter rules: which files bypass encoding conversion (evaluated in order, the last
/// matching pattern wins, `!pattern` restores conversion, no match means conversion),
/// and which files or directories are hidden from the mounted filesystem.
#[derive(Debug)]
pub struct VfsFilter {
    patterns: Vec<Pattern>,
    hidden_patterns: Vec<Pattern>,
}

impl View for VfsFilter {
    type V = (Seq<PatternView>, Seq<PatternView>);

    /// The passthrough patterns and the hidden patterns.
    closed spec fn view(&self) -> (Seq<PatternView>, Seq<PatternView>) {
        (pattern_views(self.patterns@), pattern_views(self.hidden_patterns@))
    }
}

impl VfsFilter {
    /// Compiles the passthrough rules and the hidden rules.
    pub fn new(inline_rules: &[String], hidden_rules: &[String]) -> (r: VfsFilter)
        requires
            rules_fit(views(inline_rules@)),
            rules_fit(views(hidden_rules@)),
        ensures
            r@.0 == compiled(views(inline_rules@)),
            r@.1 == compiled(views(hidden_rules@)),
    {
        let patterns = compile_patterns(inline_rules);
        let hidden_patterns = compile_patterns(hidden_rules);
        VfsFilter { patterns, hidden_patterns }
    }

    /// Whether a path should bypass encoding conversion.
    pub fn is_passthrough(&self, rel_path: &str) -> (r: bool)
        ensures
            r == passthrough(self@.0, slashed(rel_path@)),
    {
        let path = slashed_path(rel_path);
        let ghost ps = self@.0;
        let mut result = false;
        let mut i: usize = 0;
        while i < self.patterns.len()
            invariant
                ps == pattern_views(self.patterns@),
                path@ == slashed(rel_path@),
                i <= self.patterns@.len(),
                result == last_match_upto(ps, path@, i as int),
            decreases self.patterns@.len() - i,
        {
            let p = &self.patterns[i];
            if matches(p, path.as_str()) {
                result = !p.negated;
            }
            i += 1;
        }
        result
    }

    /// Whether a path should be hidden from the mounted filesystem. Hidden rules use the
    /// same syntax as the passthrough rules: the last matching rule decides, so a later
    /// `!pattern` shows again what an earlier rule hid.
    pub fn is_hidden(&self, rel_path: &str) -> (r: bool)
        ensures
            r == hidden(self@.1, slashed(rel_path@)),
    {
        let path = slashed_path(rel_path);
        let ghost ps = self@.1;
        let mut result = false;
        let mut i: usize = 0;
        while i < self.hidden_patterns.len()
            invariant
                ps == pattern_views(self.hidden_patterns@),
                path@ == slashed(rel_path@),
                i <= self.hidden_patterns@.len(),
                result == last_match_upto(ps, path@, i as int),
            decreases self.hidden_patterns@.len() - i,
        {
            let p = &self.hidden_patterns[i];
            if matches(p, path.as_str()) {
                result = !p.negated;
            }
            i += 1;
        }
        result
    }
}

/// The last matching pattern wins, for passthrough and hidden rules alike: a path is
/// selected exactly when some non-negated pattern matches it and no later pattern does.
pub proof fn law_last_match_wins(ps: Seq<PatternView>, path: Seq<char>)
    ensures
        last_match(ps, path) <==> exists|i: int|
            0 <= i < ps.len() && pattern_matches(ps[i], path) && !ps[i].1 && forall|j: int|
                i < j < ps.len() ==> !pattern_matches(#[trigger] ps[j], path),
{
    lemma_last_match_upto(ps, path, ps.len() as int);
}

proof fn lemma_last_match_upto(ps: Seq<PatternView>, path: Seq<char>, n: int)
    requires
        0 <= n <= ps.len(),
    ensures
        last_match_upto(ps, path, n) <==> exists|i: int|
            0 <= i < n && pattern_matches(ps[i], path) && !ps[i].1 && forall|j: int|
                i < j < n ==> !pattern_matches(#[trigger] ps[j], path),
    decreases n,
{
    if n > 0 {
        lemma_last_match_upto(ps, path, n - 1);
        if pattern_matches(ps[n - 1], path) {
            if !ps[n - 1].1 {
                assert(forall|j: int| n - 1 < j < n ==> !pattern_matches(#[trigger] ps[j], path));
            } else {
                assert forall|i: int|
                    0 <= i < n && pattern_matches(ps[i], path) && !ps[i].1 implies !(forall|j: int|
                    i < j < n ==> !pattern_matches(#[trigger] ps[j], path)) by {
                    assert(i != n - 1);
                    assert(pattern_matches(ps[n - 1], path));
                }
            }
        } else {
            if last_match_upto(ps, path, n) {
                let i = choose|i: int|
                    0 <= i < n - 1 && pattern_matches(ps[i], path) && !ps[i].1 && forall|j: int|
                        i < j < n - 1 ==> !pattern_matches(#[trigger] ps[j], path);
                assert(forall|j: int| i < j < n ==> !pattern_matches(#[trigger] ps[j], path));
            } else {
                assert forall|i: int|
                    0 <= i < n && pattern_matches(ps[i], path) && !ps[i].1 implies !(forall|j: int|
                    i < j < n ==> !pattern_matches(#[trigger] ps[j], path)) by {
                    if i < n - 1 {
                        if forall|j: int| i < j < n ==> !pattern_matches(#[trigger] ps[j], path) {
                            assert(forall|j: int| i < j < n - 1 ==> !pattern_matches(#[trigger] ps[j], path));
                        }
                    }
                }
            }
        }
    }
}

/// With no matching pattern, a file keeps normal encoding conversion; in particular an
/// empty rule list converts every file.
pub proof fn law_no_match_converts(ps: Seq<PatternView>, path: Seq<char>)
    requires
        forall|i: int| 0 <= i < ps.len() ==> !pattern_matches(#[trigger] ps[i], path),
    ensures
        !passthrough(ps, path),
{
    law_last_match_wins(ps, path);
}

/// A `dir/` rule stands for the directory itself and everything below it: it yields the
/// patterns `dir` and `dir/**` (each kept when globset accepts it).
pub proof fn law_directory_rule(dir: Seq<char>)
    requires
        dir.len() > 0,
        dir[0] != '!',
        dir.last() != '/',
    ensures
        line_patterns(dir.push('/')) == glob_entry(dir, false) + glob_entry(
            dir + seq!['/', '*', '*'],
            false,
        ),
{
    let line = dir.push('/');
    assert(line.drop_last() =~= dir);
    assert(strip_slashes(dir) == dir);
    assert(strip_slashes(line) == dir);
    assert(line != double_star()) by {
        if line.len() == 2 {
            assert(line[1] == '/');
        }
    }
}

/// A negated rule line `!pattern` yields the trimmed pattern, marked as negated.
pub proof fn law_negated_rule(rest: Seq<char>)
    requires
        trim(rest) != double_star(),
        trim(rest).len() == 0 || trim(rest).last() != '/',
    ensures
        line_patterns(seq!['!'] + rest) == glob_entry(trim(rest), true),
{
    let line = seq!['!'] + rest;
    assert(line.drop_first() =~= rest);
}

/// A negated directory rule `!dir/` stands for the directory and everything below it,
/// negated: it yields the negated patterns `dir` and `dir/**` (each kept when globset
/// accepts it), just as `dir/` yields them unnegated. So `!src/` after `**` restores
/// conversion for `src/main.cpp` as well as for `src`.
pub proof fn law_negated_directory_rule(dir: Seq<char>)
    requires
        dir.len() > 0,
        !is_ws(dir[0]),
        dir.last() != '/',
    ensures
        line_patterns(seq!['!'] + dir.push('/')) == glob_entry(dir, true) + glob_entry(
            dir + seq!['/', '*', '*'],
            true,
        ),
{
    let line = seq!['!'] + dir.push('/');
    let rest = dir.push('/');
    assert(line.drop_first() =~= rest);
    assert(trim_start(rest) == rest);
    assert(trim_end(rest) == rest);
    assert(trim(rest) == rest);
    assert(rest.drop_last() =~= dir);
    assert(strip_slashes(dir) == dir);
    assert(strip_slashes(rest) == dir);
    assert(rest != double_star()) by {
        if rest.len() == 2 {
            assert(rest[1] == '/');
        }
    }
}

} // verus!
