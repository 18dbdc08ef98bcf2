//! Mapping a working directory inside a mount back to the source directory, so that
//! git commands run where the repository really is.

use vstd::prelude::*;
use crate::mounts::MountInfo;
use crate::text::{chars_of, string_of};
use crate::vfs::{join, join_path};

verus! {

/// A separator between components: `/`, and with `windows_rules` also `\\`.
pub open spec fn is_sep(c: char, windows_rules: bool) -> bool {
    c == '/' || (windows_rules && c == '\\')
}

/// The separator written between components: `\\` with `windows_rules`, else `/`.
pub open spec fn sep_char(windows_rules: bool) -> char {
    if windows_rules {
        '\\'
    } else {
        '/'
    }
}

/// The component that stands for the root directory.
pub open spec fn root_comp(windows_rules: bool) -> Seq<char> {
    seq![sep_char(windows_rules)]
}

/// Adds a finished path segment to the components: empty segments are dropped, and so
/// is `.` unless it is the very first component of a relative path.
pub open spec fn flush(done: Seq<Seq<char>>, cur: Seq<char>) -> Seq<Seq<char>> {
    if cur.len() == 0 || (cur == seq!['.'] && done.len() != 0) {
        done
    } else {
        done.push(cur)
    }
}

/// The components finished, and the segment being read, after the first `n` characters.
pub open spec fn scan(p: Seq<char>, n: int, w: bool) -> (Seq<Seq<char>>, Seq<char>)
    decreases n,
{
    if n <= 0 {
        (
            if p.len() > 0 && is_sep(p[0], w) {
                seq![root_comp(w)]
            } else {
                seq![]
            },
            seq![],
        )
    } else {
        let (done, cur) = scan(p, n - 1, w);
        if is_sep(p[n - 1], w) {
            (flush(done, cur), seq![])
        } else {
            (done, cur.push(p[n - 1]))
        }
    }
}

/// The components of a path, as `Path::components` gives them: a root for a leading
/// separator, then the segments between separators, without empty segments and without
/// `.` except as the first component of a relative path. Separators are `/`, and with
/// `windows_rules` also `\\`; a drive such as `Y:` is then a component of its own, so
/// `Y:`, `Y:\\` and `Y:/` all have the one component `Y:`.
pub open spec fn components(p: Seq<char>, w: bool) -> Seq<Seq<char>> {
    flush(scan(p, p.len() as int, w).0, scan(p, p.len() as int, w).1)
}

/// A path made of components: separated by the separator of the rules, with no
/// separator after the root.
pub open spec fn joined(cs: Seq<Seq<char>>, n: int, w: bool) -> Seq<char>
    decreases n,
{
    if n <= 0 {
        seq![]
    } else {
        joined(cs, n - 1, w) + (if n - 1 > 0 && cs[n - 2] != root_comp(w) {
            seq![sep_char(w)]
        } else {
            seq![]
        }) + cs[n - 1]
    }
}

/// `path` with the leading components of `base` removed, if `base`'s components begin
/// `path`'s (`Path::strip_prefix`), written back with the separator of the rules.
pub open spec fn stripped(path: Seq<char>, base: Seq<char>, w: bool) -> Option<Seq<char>> {
    let pc = components(path, w);
    let bc = components(base, w);
    if bc.len() <= pc.len() && pc.subrange(0, bc.len() as int) == bc {
        let rest = pc.subrange(bc.len() as int, pc.len() as int);
        Some(joined(rest, rest.len() as int, w))
    } else {
        None
    }
}

/// A path written back from its components: paths with the same components (such as
/// `a//b`, `a/./b` and `a/b/`) give the same text, as they are the same `Path`.
pub open spec fn normalized(p: Seq<char>, w: bool) -> Seq<char> {
    let cs = components(p, w);
    joined(cs, cs.len() as int, w)
}

/// `s` without its trailing `c` characters.
pub open spec fn trim_end_char(s: Seq<char>, c: char) -> Seq<char>
    decreases s.len(),
{
    if s.len() > 0 && s.last() == c {
        trim_end_char(s.drop_last(), c)
    } else {
        s
    }
}

/// `s` ends with a path separator (`\` or `/`).
pub open spec fn ends_with_separator(s: Seq<char>) -> bool {
    s.len() > 0 && (s.last() == '\\' || s.last() == '/')
}

/// The path of `path` relative to `prefix`. With `windows_rules`, a drive such as `Y:`
/// and `Y:\` are taken as the same: when the direct strip fails, the prefix is tried
/// with a trailing `\` added (if it has no trailing separator) or with its trailing
/// separators removed (if it has).
pub open spec fn relative_to(path: Seq<char>, prefix: Seq<char>, windows_rules: bool) -> Option<Seq<char>> {
    match stripped(path, prefix, windows_rules) {
        Some(r) => Some(r),
        None => if !windows_rules {
            None
        } else if !ends_with_separator(prefix) {
            stripped(path, prefix.push('\\'), windows_rules)
        } else {
            stripped(path, trim_end_char(trim_end_char(prefix, '\\'), '/'), windows_rules)
        },
    }
}

/// The source directory for a working directory inside a mount: the relative part
/// joined onto the source, or the source itself at the mount's root.
pub open spec fn source_for(info: MountInfo, current_dir: Seq<char>, windows_rules: bool) -> Option<Seq<char>> {
    match relative_to(current_dir, info.mount_point@, windows_rules) {
        None => None,
        Some(rel) => if rel.len() == 0 || rel == seq!['\\'] || rel == seq!['/'] {
            Some(info.source@)
        } else {
            Some(join(info.source@, rel))
        },
    }
}

/// The characters of each vector.
pub open spec fn cviews(v: Seq<Vec<char>>) -> Seq<Seq<char>> {
    v.map_values(|c: Vec<char>| c@)
}

fn chars_eq(a: &[char], b: &[char]) -> (r: bool)
    ensures
        r == (a@ == b@),
{
    if a.len() != b.len() {
        return false;
    }
    let mut i: usize = 0;
    while i < a.len()
        invariant
            a@.len() == b@.len(),
            i <= a@.len(),
            forall|j: int| 0 <= j < i ==> a@[j] == b@[j],
        decreases a@.len() - i,
    {
        if a[i] != b[i] {
            return false;
        }
        i += 1;
    }
    assert(a@ =~= b@);
    true
}

fn flush_into(done: &mut Vec<Vec<char>>, cur: Vec<char>)
    ensures
        cviews(final(done)@) == flush(cviews(old(done)@), cur@),
{
    let is_dot = cur.len() == 1 && cur[0] == '.';
    if cur.len() == 0 || (is_dot && done.len() != 0) {
        assert(is_dot ==> cur@ =~= seq!['.']);
        return;
    }
    assert(cur@ != seq!['.'] || done@.len() == 0);
    done.push(cur);
    assert(cviews(final(done)@) =~= cviews(old(done)@).push(cur@));
}

fn separator(c: char, windows_rules: bool) -> (r: bool)
    ensures
        r == is_sep(c, windows_rules),
{
    c == '/' || (windows_rules && c == '\\')
}

fn separator_char(windows_rules: bool) -> (r: char)
    ensures
        r == sep_char(windows_rules),
{
    if windows_rules {
        '\\'
    } else {
        '/'
    }
}

/// The components of a path.
pub fn path_components(p: &str, windows_rules: bool) -> (r: Vec<Vec<char>>)
    ensures
        cviews(r@) == components(p@, windows_rules),
{
    let chars = chars_of(p);
    let mut done: Vec<Vec<char>> = Vec::new();
    if chars.len() > 0 && separator(chars[0], windows_rules) {
        let mut root: Vec<char> = Vec::new();
        root.push(separator_char(windows_rules));
        done.push(root);
        assert(cviews(done@) =~= seq![root_comp(windows_rules)]);
    } else {
        assert(cviews(done@) =~= Seq::<Seq<char>>::empty());
    }
    let mut cur: Vec<char> = Vec::new();
    let mut i: usize = 0;
    while i < chars.len()
        invariant
            chars@ == p@,
            i <= chars@.len(),
            (cviews(done@), cur@) == scan(p@, i as int, windows_rules),
        decreases chars@.len() - i,
    {
        if separator(chars[i], windows_rules) {
            let finished = cur;
            flush_into(&mut done, finished);
            cur = Vec::new();
        } else {
            cur.push(chars[i]);
        }
        i += 1;
    }
    flush_into(&mut done, cur);
    done
}

fn join_components(cs: &Vec<Vec<char>>, from: usize, windows_rules: bool) -> (r: String)
    requires
        from <= cs@.len(),
    ensures
        ({
            let rest = cviews(cs@).subrange(from as int, cs@.len() as int);
            r@ == joined(rest, rest.len() as int, windows_rules)
        }),
{
    let sep = separator_char(windows_rules);
    let ghost rest = cviews(cs@).subrange(from as int, cs@.len() as int);
    let mut out: Vec<char> = Vec::new();
    let mut k: usize = from;
    while k < cs.len()
        invariant
            from <= k <= cs@.len(),
            rest == cviews(cs@).subrange(from as int, cs@.len() as int),
            out@ == joined(rest, k - from, windows_rules),
            sep == sep_char(windows_rules),
        decreases cs@.len() - k,
    {
        if k > from {
            let prev = &cs[k - 1];
            let prev_is_root = prev.len() == 1 && prev[0] == sep;
            assert(rest[k - from - 1] == prev@);
            assert(prev_is_root == (prev@ == root_comp(windows_rules))) by {
                if prev_is_root {
                    assert(prev@ =~= root_comp(windows_rules));
                }
            }
            if !prev_is_root {
                out.push(sep);
            }
        }
        let c = &cs[k];
        assert(rest[k - from] == c@);
        let ghost before = out@;
        let mut j: usize = 0;
        while j < c.len()
            invariant
                j <= c@.len(),
                out@ == before + c@.subrange(0, j as int),
            decreases c@.len() - j,
        {
            out.push(c[j]);
            j += 1;
        }
        assert(c@.subrange(0, c@.len() as int) =~= c@);
        assert(out@ =~= joined(rest, k + 1 - from, windows_rules));
        k += 1;
    }
    string_of(&out)
}

/// `path` relative to `base` (`Path::strip_prefix`), if `base`'s components begin it.
pub fn strip_prefix(path: &str, base: &str, windows_rules: bool) -> (r: Option<String>)
    ensures
        r is Some <==> stripped(path@, base@, windows_rules) is Some,
        r is Some ==> r.unwrap()@ == stripped(path@, base@, windows_rules).unwrap(),
{
    let pc = path_components(path, windows_rules);
    let bc = path_components(base, windows_rules);
    assert(cviews(bc@).len() == bc@.len() && cviews(pc@).len() == pc@.len());
    if bc.len() > pc.len() {
        assert(components(base@, windows_rules).len() > components(path@, windows_rules).len());
        assert(stripped(path@, base@, windows_rules) is None);
        return None;
    }
    let mut i: usize = 0;
    while i < bc.len()
        invariant
            bc@.len() <= pc@.len(),
            i <= bc@.len(),
            cviews(pc@) == components(path@, windows_rules),
            cviews(bc@) == components(base@, windows_rules),
            cviews(bc@).len() == bc@.len() && cviews(pc@).len() == pc@.len(),
            forall|j: int| 0 <= j < i ==> cviews(pc@)[j] == cviews(bc@)[j],
        decreases bc@.len() - i,
    {
        if !chars_eq(&pc[i], &bc[i]) {
            assert(cviews(pc@).subrange(0, bc@.len() as int)[i as int] != cviews(bc@)[i as int]);
            return None;
        }
        i += 1;
    }
    assert(cviews(pc@).subrange(0, bc@.len() as int) =~= cviews(bc@));
    Some(join_components(&pc, bc.len(), windows_rules))
}

/// A path written back from its components.
pub fn normalize_path(p: &str, windows_rules: bool) -> (r: String)
    ensures
        r@ == normalized(p@, windows_rules),
{
    let cs = path_components(p, windows_rules);
    assert(cviews(cs@).subrange(0, cs@.len() as int) =~= cviews(cs@));
    join_components(&cs, 0, windows_rules)
}

/// `s` without its trailing `c` characters.
fn trim_end_chars(s: &[char], c: char) -> (r: Vec<char>)
    ensures
        r@ == trim_end_char(s@, c),
{
    let mut b: usize = s.len();
    assert(s@.subrange(0, b as int) =~= s@);
    while b > 0 && s[b - 1] == c
        invariant
            b <= s@.len(),
            trim_end_char(s@.subrange(0, b as int), c) == trim_end_char(s@, c),
        decreases b,
    {
        assert(s@.subrange(0, b as int).drop_last() =~= s@.subrange(0, b - 1));
        b -= 1;
    }
    crate::filter::sub_chars(s, 0, b)
}

/// The path of `path` relative to `prefix`, also accepting a drive written with or
/// without its trailing separator when `windows_rules` is set.
pub fn normalize_strip_prefix(path: &str, prefix: &str, windows_rules: bool) -> (r: Option<String>)
    ensures
        r is Some <==> relative_to(path@, prefix@, windows_rules) is Some,
        r is Some ==> r.unwrap()@ == relative_to(path@, prefix@, windows_rules).unwrap(),
{
    if let Some(rel) = strip_prefix(path, prefix, windows_rules) {
        return Some(rel);
    }
    if !windows_rules {
        return None;
    }
    let p = chars_of(prefix);
    let n = p.len();
    if !(n > 0 && (p[n - 1] == '\\' || p[n - 1] == '/')) {
        let mut with_sep = p.clone();
        with_sep.push('\\');
        let s = string_of(&with_sep);
        strip_prefix(path, s.as_str(), windows_rules)
    } else {
        let a = trim_end_chars(&p, '\\');
        let b = trim_end_chars(&a, '/');
        let s = string_of(&b);
        strip_prefix(path, s.as_str(), windows_rules)
    }
}

/// The source directory where git should run for a working directory inside a mount,
/// or `None` when the directory is not below the mount point.
pub fn source_path(info: &MountInfo, current_dir: &str, windows_rules: bool) -> (r: Option<String>)
    ensures
        r is Some <==> source_for(*info, current_dir@, windows_rules) is Some,
        r is Some ==> r.unwrap()@ == source_for(*info, current_dir@, windows_rules).unwrap(),
{
    let rel = match normalize_strip_prefix(current_dir, info.mount_point.as_str(), windows_rules) {
        Some(r) => r,
        None => return None,
    };
    let rc = chars_of(rel.as_str());
    let at_root = rc.len() == 0 || (rc.len() == 1 && (rc[0] == '\\' || rc[0] == '/'));
    assert(at_root == (rel@.len() == 0 || rel@ == seq!['\\'] || rel@ == seq!['/'])) by {
        if rc@.len() == 1 {
            if rc@[0] == '\\' {
                assert(rel@ =~= seq!['\\']);
            }
            if rc@[0] == '/' {
                assert(rel@ =~= seq!['/']);
            }
        }
    }
    if at_root {
        Some(info.source.clone())
    } else {
        Some(join_path(info.source.as_str(), rel.as_str()))
    }
}


/// The name of the git executable: `git.exe` on Windows, `git` elsewhere.
pub fn git_exe_name(windows_rules: bool) -> (r: &'static str)
    ensures
        r@ == (if windows_rules {
            "git.exe"@
        } else {
            "git"@
        }),
{
    if windows_rules {
        "git.exe"
    } else {
        "git"
    }
}

/// A place on the search path where the real git might be: the directory, the
/// executable's path in it, whether that path is an existing file, and where it
/// resolves to (`None` when it cannot be resolved).
pub struct GitCandidate {
    pub dir: String,
    pub path: String,
    pub is_file: bool,
    pub resolved: Option<String>,
}

/// The characters of an optional string.
pub open spec fn opt_view(o: Option<String>) -> Option<Seq<char>> {
    match o {
        Some(s) => Some(s@),
        None => None,
    }
}

/// Both paths resolve, to the same place.
pub open spec fn same_real(a: Option<Seq<char>>, b: Option<Seq<char>>) -> bool {
    a is Some && b is Some && a.unwrap() == b.unwrap()
}

/// A search-path candidate is the real git: its directory is not the wrapper's own, it
/// is an existing file, and it does not resolve to the wrapper itself.
pub open spec fn accepted(
    c: GitCandidate,
    wrapper_dir: Seq<char>,
    wrapper_real: Option<Seq<char>>,
    w: bool,
) -> bool {
    &&& components(c.dir@, w) != components(wrapper_dir, w)
    &&& c.is_file
    &&& !same_real(opt_view(c.resolved), wrapper_real)
}

/// A path printed by `which`/`where` is the real git: it resolves, and not to the
/// wrapper itself.
pub open spec fn accepted_line(resolved: Option<Seq<char>>, wrapper_real: Option<Seq<char>>) -> bool {
    resolved is Some && !same_real(resolved, wrapper_real)
}

fn opt_str_eq(a: &Option<String>, b: &Option<String>) -> (r: bool)
    ensures
        r == same_real(opt_view(*a), opt_view(*b)),
{
    match (a, b) {
        (Some(x), Some(y)) => crate::text::str_eq(x.as_str(), y.as_str()),
        _ => false,
    }
}

fn components_eq(a: &Vec<Vec<char>>, b: &Vec<Vec<char>>) -> (r: bool)
    ensures
        r == (cviews(a@) == cviews(b@)),
{
    if a.len() != b.len() {
        assert(cviews(a@).len() != cviews(b@).len());
        return false;
    }
    let mut i: usize = 0;
    while i < a.len()
        invariant
            a@.len() == b@.len(),
            i <= a@.len(),
            forall|j: int| 0 <= j < i ==> cviews(a@)[j] == cviews(b@)[j],
        decreases a@.len() - i,
    {
        if !chars_eq(&a[i], &b[i]) {
            assert(cviews(a@)[i as int] != cviews(b@)[i as int]);
            return false;
        }
        i += 1;
    }
    assert(cviews(a@) =~= cviews(b@));
    true
}

/// The first search-path candidate that is the real git, if any.
pub fn first_real_git(
    cands: &[GitCandidate],
    wrapper_dir: &str,
    wrapper_real: &Option<String>,
    windows_rules: bool,
) -> (r: Option<usize>)
    ensures
        r matches Some(i) ==> i < cands@.len() && accepted(
            cands@[i as int],
            wrapper_dir@,
            opt_view(*wrapper_real),
            windows_rules,
        ) && forall|j: int|
            0 <= j < i ==> !accepted(
                #[trigger] cands@[j],
                wrapper_dir@,
                opt_view(*wrapper_real),
                windows_rules,
            ),
        r is None <==> forall|j: int|
            0 <= j < cands@.len() ==> !accepted(
                #[trigger] cands@[j],
                wrapper_dir@,
                opt_view(*wrapper_real),
                windows_rules,
            ),
{
    let wc = path_components(wrapper_dir, windows_rules);
    let mut i: usize = 0;
    while i < cands.len()
        invariant
            i <= cands@.len(),
            cviews(wc@) == components(wrapper_dir@, windows_rules),
            forall|j: int|
                0 <= j < i ==> !accepted(
                    #[trigger] cands@[j],
                    wrapper_dir@,
                    opt_view(*wrapper_real),
                    windows_rules,
                ),
        decreases cands@.len() - i,
    {
        let c = &cands[i];
        let dc = path_components(c.dir.as_str(), windows_rules);
        if !components_eq(&dc, &wc) && c.is_file && !opt_str_eq(&c.resolved, wrapper_real) {
            return Some(i);
        }
        i += 1;
    }
    None
}

/// The lines of a text, as `str::lines` splits it: the lines finished and the line
/// being read after the first `n` characters.
pub open spec fn lines_upto(s: Seq<char>, n: int) -> (Seq<Seq<char>>, Seq<char>)
    decreases n,
{
    if n <= 0 {
        (seq![], seq![])
    } else {
        let (done, cur) = lines_upto(s, n - 1);
        if s[n - 1] == '\n' {
            (done.push(cur), seq![])
        } else {
            (done, cur.push(s[n - 1]))
        }
    }
}

/// The lines of a text: split at each newline, with no empty line after a final newline.
pub open spec fn text_lines(s: Seq<char>) -> Seq<Seq<char>> {
    let (done, cur) = lines_upto(s, s.len() as int);
    if cur.len() == 0 {
        done
    } else {
        done.push(cur)
    }
}

/// The paths that `which git` (`where git.exe`) printed: its lines, trimmed.
pub open spec fn printed_paths(out: Seq<char>) -> Seq<Seq<char>> {
    text_lines(out).map_values(|l: Seq<char>| crate::filter::trim(l))
}

/// The paths printed in the output of `which`/`where`, one per line, trimmed.
pub fn which_paths(out: &str) -> (r: Vec<String>)
    ensures
        r@.len() == printed_paths(out@).len(),
        forall|k: int| 0 <= k < r@.len() ==> (#[trigger] r@[k])@ == printed_paths(out@)[k],
{
    let chars = chars_of(out);
    let mut lines: Vec<String> = Vec::new();
    let mut cur: Vec<char> = Vec::new();
    let mut i: usize = 0;
    while i < chars.len()
        invariant
            chars@ == out@,
            i <= chars@.len(),
            lines@.len() == lines_upto(out@, i as int).0.len(),
            forall|k: int|
                0 <= k < lines@.len() ==> (#[trigger] lines@[k])@ == crate::filter::trim(
                    lines_upto(out@, i as int).0[k],
                ),
            cur@ == lines_upto(out@, i as int).1,
        decreases chars@.len() - i,
    {
        if chars[i] == '\n' {
            let t = crate::filter::trim_chars(&cur);
            lines.push(string_of(&t));
            cur = Vec::new();
        } else {
            cur.push(chars[i]);
        }
        i += 1;
    }
    if cur.len() > 0 {
        let t = crate::filter::trim_chars(&cur);
        lines.push(string_of(&t));
    }
    lines
}

/// The first printed path that is the real git, given where each resolves (`reals`),
/// if any.
pub fn first_real_line(reals: &[Option<String>], wrapper_real: &Option<String>) -> (r: Option<usize>)
    ensures
        r matches Some(i) ==> i < reals@.len() && accepted_line(
            opt_view(reals@[i as int]),
            opt_view(*wrapper_real),
        ) && forall|j: int|
            0 <= j < i ==> !accepted_line(opt_view(#[trigger] reals@[j]), opt_view(*wrapper_real)),
        r is None <==> forall|j: int|
            0 <= j < reals@.len() ==> !accepted_line(opt_view(#[trigger] reals@[j]), opt_view(*wrapper_real)),
{
    let mut i: usize = 0;
    while i < reals.len()
        invariant
            i <= reals@.len(),
            forall|j: int|
                0 <= j < i ==> !accepted_line(opt_view(#[trigger] reals@[j]), opt_view(*wrapper_real)),
        decreases reals@.len() - i,
    {
        if reals[i].is_some() && !opt_str_eq(&reals[i], wrapper_real) {
            return Some(i);
        }
        i += 1;
    }
    None
}

/// The mount point itself maps to the source directory.
pub proof fn law_mount_root_is_source(info: MountInfo, windows_rules: bool)
    ensures
        source_for(info, info.mount_point@, windows_rules) == Some(info.source@),
{
    let p = info.mount_point@;
    let pc = components(p, windows_rules);
    assert(pc.subrange(0, pc.len() as int) =~= pc);
    let rest = pc.subrange(pc.len() as int, pc.len() as int);
    assert(rest.len() == 0);
    assert(joined(rest, 0, windows_rules) == Seq::<char>::empty());
    assert(stripped(p, p, windows_rules) == Some(Seq::<char>::empty()));
}

} // verus!
