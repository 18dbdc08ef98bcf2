//! The registry of active mounts, and the mapping of a directory inside a mount back
//! to the source directory.

use vstd::prelude::*;
use vstd::utf8::encode_utf8;
use crate::encoding::{to_uppercase, spec_to_uppercase};
use crate::text::{chars_of, is_prefix, starts_with_chars};
use crate::host::{decimal, decimal_string};

verus! {

/// Information about one active mount.
pub struct MountInfo {
    /// Mount point: "Y:" on Windows, "/mnt/vfs" on Linux.
    pub mount_point: String,
    /// Source (backend) directory being mounted.
    pub source: String,
    /// Process id of the process serving the mount.
    pub pid: u32,
}

impl MountInfo {
    /// A copy of this entry.
    pub fn duplicate(&self) -> (r: MountInfo)
        ensures
            r == *self,
    {
        MountInfo { mount_point: self.mount_point.clone(), source: self.source.clone(), pid: self.pid }
    }
}

/// The mounts whose mount point differs from `mp`, in order.
pub open spec fn without_mount_point(ms: Seq<MountInfo>, mp: Seq<char>) -> Seq<MountInfo> {
    ms.filter(other_point(mp))
}

/// Holds of the mounts whose mount point is not `mp`.
pub open spec fn other_point(mp: Seq<char>) -> spec_fn(MountInfo) -> bool {
    |m: MountInfo| m.mount_point@ != mp
}

/// The mounts `ms[i]` with `keep[i]`, in order.
pub open spec fn kept(ms: Seq<MountInfo>, keep: Seq<bool>) -> Seq<MountInfo>
    decreases ms.len(),
{
    if ms.len() == 0 {
        seq![]
    } else {
        kept(ms.drop_last(), keep) + if keep[ms.len() - 1] {
            seq![ms.last()]
        } else {
            seq![]
        }
    }
}

/// A path separator: `/`, or `\` as Windows writes it.
pub open spec fn is_separator(c: char) -> bool {
    c == '/' || c == '\\'
}

/// The path is the directory `point` or lies within it: `point` begins the path and
/// ends there on a component boundary (the path ends, a separator follows, or `point`
/// itself ends with one).
pub open spec fn within(point: Seq<char>, path: Seq<char>) -> bool {
    &&& is_prefix(point, path)
    &&& (path.len() == point.len() || (point.len() > 0 && is_separator(point.last()))
        || is_separator(path[point.len() as int]))
}

/// Whether a mount covers a path: the path lies within its mount point (compared after
/// upper-casing both when `ignore_case`, as on Windows).
pub open spec fn covers(m: MountInfo, path: Seq<char>, ignore_case: bool) -> bool {
    if ignore_case {
        within(spec_to_uppercase(m.mount_point@), spec_to_uppercase(path))
    } else {
        within(m.mount_point@, path)
    }
}

/// Whether the path `s` lies within the directory `p` (both as characters).
fn within_chars(s: &[char], p: &[char]) -> (r: bool)
    ensures
        r == within(p@, s@),
{
    if !starts_with_chars(s, p) {
        return false;
    }
    let n = p.len();
    n == s.len() || (n > 0 && (p[n - 1] == '/' || p[n - 1] == '\\')) || s[n] == '/' || s[n] == '\\'
}

/// The length in bytes of a mount point, as `str::len` gives it.
pub open spec fn point_len(m: MountInfo) -> usize {
    encode_utf8(m.mount_point@).len() as usize
}

/// `ms[i]` is the mount chosen for a path: it covers the path, no covering mount has a
/// longer mount point, and no earlier covering mount has one as long.
pub open spec fn chosen(ms: Seq<MountInfo>, path: Seq<char>, ignore_case: bool, i: int) -> bool {
    &&& 0 <= i < ms.len()
    &&& covers(ms[i], path, ignore_case)
    &&& forall|j: int|
        0 <= j < ms.len() && covers(#[trigger] ms[j], path, ignore_case) ==> point_len(ms[j])
            <= point_len(ms[i])
    &&& forall|j: int|
        0 <= j < i && covers(#[trigger] ms[j], path, ignore_case) ==> point_len(ms[j]) < point_len(
            ms[i],
        )
}

/// Calls `Path::exists`. Whether a path exists depends on the running system, so
/// nothing is stated of the answer.
#[verifier::external_body]
fn path_exists(path: &str) -> bool {
    std::path::Path::new(path).exists()
}

/// The directory under which Linux shows a live process: `/proc/<pid>`.
pub fn proc_path(pid: u32) -> (r: String)
    ensures
        r@ == "/proc/"@ + decimal(pid as nat),
{
    let mut p = String::from_str("/proc/");
    let digits = decimal_string(pid as u64);
    p.append(digits.as_str());
    p
}

/// Whether the process with this id is alive, as Linux shows it under `/proc`.
fn is_process_alive(pid: u32) -> bool {
    let p = proc_path(pid);
    path_exists(p.as_str())
}

/// `needle` occurs somewhere in `hay`.
pub open spec fn occurs(needle: Seq<char>, hay: Seq<char>) -> bool {
    exists|k: int|
        0 <= k && k + needle.len() <= hay.len() && #[trigger] hay.subrange(k, k + needle.len())
            == needle
}

/// For each mount, whether its process id appears in its listing.
pub open spec fn listed_flags(ms: Seq<MountInfo>, listings: Seq<String>) -> Seq<bool> {
    Seq::new(ms.len(), |i: int| occurs(decimal(ms[i].pid as nat), listings[i]@))
}

/// Whether the decimal process id appears in a process listing (`str::contains`).
pub fn output_mentions_pid(output: &str, pid: u32) -> (r: bool)
    ensures
        r == occurs(decimal(pid as nat), output@),
{
    let hay = chars_of(output);
    let digits = decimal_string(pid as u64);
    let needle = chars_of(digits.as_str());
    let n = hay.len();
    let m = needle.len();
    if m > n {
        return false;
    }
    let mut k: usize = 0;
    while k <= n - m
        invariant
            hay@ == output@,
            needle@ == decimal(pid as nat),
            n == hay@.len(),
            m == needle@.len(),
            m <= n,
            k <= n - m + 1,
            forall|j: int| 0 <= j < k ==> #[trigger] hay@.subrange(j, j + m) != needle@,
        decreases n - k,
    {
        let mut t: usize = 0;
        let mut same = true;
        while t < m
            invariant
                k + m <= n,
                n == hay@.len(),
                m == needle@.len(),
                t <= m,
                same == forall|q: int| 0 <= q < t ==> #[trigger] hay@[k + q] == needle@[q],
            decreases m - t,
        {
            if hay[k + t] != needle[t] {
                same = false;
            }
            t += 1;
        }
        if same {
            assert forall|q: int| 0 <= q < m implies hay@.subrange(k as int, k + m)[q] == needle@[q] by {
                assert(hay@[k + q] == needle@[q]);
            }
            assert(hay@.subrange(k as int, k + m) =~= needle@);
            return true;
        }
        assert(hay@.subrange(k as int, k + m)[0] == hay@[k as int + 0]);
        assert(hay@.subrange(k as int, k + m) != needle@) by {
            let q = choose|q: int| 0 <= q < m && hay@[k + q] != needle@[q];
            assert(hay@.subrange(k as int, k + m)[q] == hay@[k + q]);
        }
        k += 1;
    }
    proof {
        assert forall|j: int| 0 <= j && j + m <= n implies #[trigger] hay@.subrange(j, j + m) != needle@ by {
            assert(j < k);
        }
    }
    false
}

/// Keeping every mount keeps the list as it is.
proof fn lemma_kept_all(ms: Seq<MountInfo>, keep: Seq<bool>)
    requires
        keep.len() == ms.len(),
        forall|i: int| 0 <= i < keep.len() ==> keep[i],
    ensures
        kept(ms, keep) == ms,
    decreases ms.len(),
{
    if ms.len() > 0 {
        lemma_kept_prefix(ms.drop_last(), keep);
        lemma_kept_all(ms.drop_last(), keep.subrange(0, ms.len() - 1));
        assert(kept(ms, keep) =~= ms);
    }
}

/// Registry of active mounts.
pub struct MountsRegistry {
    mounts: Vec<MountInfo>,
}

impl View for MountsRegistry {
    type V = Seq<MountInfo>;

    /// The registered mounts, in order.
    closed spec fn view(&self) -> Seq<MountInfo> {
        self.mounts@
    }
}

fn retain_other_points(ms: &Vec<MountInfo>, mp: &str) -> (r: Vec<MountInfo>)
    ensures
        r@ == without_mount_point(ms@, mp@),
{
    let ghost pred = other_point(mp@);
    let mut out: Vec<MountInfo> = Vec::new();
    let mut i: usize = 0;
    while i < ms.len()
        invariant
            i <= ms@.len(),
            pred == other_point(mp@),
            out@ == ms@.subrange(0, i as int).filter(pred),
        decreases ms@.len() - i,
    {
        proof {
            reveal_with_fuel(Seq::<_>::filter, 1);
            assert(ms@.subrange(0, i + 1).drop_last() =~= ms@.subrange(0, i as int));
        }
        if !crate::text::str_eq(ms[i].mount_point.as_str(), mp) {
            out.push(ms[i].duplicate());
        }
        i += 1;
    }
    assert(ms@.subrange(0, ms@.len() as int) =~= ms@);
    out
}

impl MountsRegistry {
    /// An empty registry.
    pub fn new() -> (r: MountsRegistry)
        ensures
            r@ == Seq::<MountInfo>::empty(),
    {
        MountsRegistry { mounts: Vec::new() }
    }

    /// A registry holding the given mounts (as read back from the registry file).
    pub fn from_mounts(mounts: Vec<MountInfo>) -> (r: MountsRegistry)
        ensures
            r@ == mounts@,
    {
        MountsRegistry { mounts }
    }

    /// Registers a mount, replacing any entry for the same mount point. The caller saves
    /// the registry afterwards.
    pub fn register(&mut self, info: MountInfo)
        ensures
            final(self)@ == without_mount_point(old(self)@, info.mount_point@).push(info),
    {
        let mut rest = retain_other_points(&self.mounts, info.mount_point.as_str());
        rest.push(info);
        self.mounts = rest;
    }

    /// Unregisters the mount at a mount point. The caller saves the registry afterwards.
    pub fn unregister(&mut self, mount_point: &str)
        ensures
            final(self)@ == without_mount_point(old(self)@, mount_point@),
    {
        self.mounts = retain_other_points(&self.mounts, mount_point);
    }

    fn find(&self, path: &str, ignore_case: bool) -> (r: Option<&MountInfo>)
        ensures
            r is None <==> forall|i: int|
                0 <= i < self@.len() ==> !covers(#[trigger] self@[i], path@, ignore_case),
            r is Some ==> exists|i: int|
                chosen(self@, path@, ignore_case, i) && *r.unwrap() == self@[i],
    {
        let target = if ignore_case {
            to_uppercase(path)
        } else {
            String::from_str(path)
        };
        let target_chars = chars_of(target.as_str());
        let ghost tv = if ignore_case {
            spec_to_uppercase(path@)
        } else {
            path@
        };
        let mut best: Option<usize> = None;
        let mut best_len: usize = 0;
        let mut i: usize = 0;
        while i < self.mounts.len()
            invariant
                i <= self@.len(),
                self@ == self.mounts@,
                target_chars@ == tv,
                tv == (if ignore_case {
                    spec_to_uppercase(path@)
                } else {
                    path@
                }),
                best is None ==> forall|j: int|
                    0 <= j < i ==> !covers(#[trigger] self@[j], path@, ignore_case),
                best matches Some(b) ==> {
                    &&& b < i
                    &&& covers(self@[b as int], path@, ignore_case)
                    &&& best_len == point_len(self@[b as int])
                    &&& forall|j: int|
                        0 <= j < i && covers(#[trigger] self@[j], path@, ignore_case) ==> point_len(
                            self@[j],
                        ) <= best_len
                    &&& forall|j: int|
                        0 <= j < b && covers(#[trigger] self@[j], path@, ignore_case)
                            ==> point_len(self@[j]) < best_len
                },
            decreases self@.len() - i,
        {
            let m = &self.mounts[i];
            let point = if ignore_case {
                to_uppercase(m.mount_point.as_str())
            } else {
                String::from_str(m.mount_point.as_str())
            };
            let point_chars = chars_of(point.as_str());
            let len = m.mount_point.as_str().len();
            assert(len == point_len(self@[i as int]));
            assert(point_chars@ == (if ignore_case {
                spec_to_uppercase(self@[i as int].mount_point@)
            } else {
                self@[i as int].mount_point@
            }));
            if within_chars(&target_chars, &point_chars) {
                assert(covers(self@[i as int], path@, ignore_case));
                match best {
                    None => {
                        best = Some(i);
                        best_len = len;
                    },
                    Some(_) => {
                        if len > best_len {
                            best = Some(i);
                            best_len = len;
                        }
                    },
                }
            }
            i += 1;
        }
        match best {
            None => None,
            Some(b) => {
                assert(chosen(self@, path@, ignore_case, b as int));
                Some(&self.mounts[b])
            },
        }
    }

    /// The mount whose directory holds a path, if any: the one with the longest mount
    /// point, the first registered among equally long ones. The mount point must begin
    /// the path on a component boundary, so `/mnt/vfs` holds `/mnt/vfs/x` but not
    /// `/mnt/vfs2/x`. Mount points are compared as they are (Linux).
    pub fn find_by_path(&self, path: &str) -> (r: Option<&MountInfo>)
        ensures
            r is None <==> forall|i: int| 0 <= i < self@.len() ==> !covers(#[trigger] self@[i], path@, false),
            r is Some ==> exists|i: int| chosen(self@, path@, false, i) && *r.unwrap() == self@[i],
    {
        self.find(path, false)
    }

    /// As `find_by_path`, comparing mount point and path after upper-casing (Windows
    /// drive letters).
    pub fn find_by_path_ignoring_case(&self, path: &str) -> (r: Option<&MountInfo>)
        ensures
            r is None <==> forall|i: int| 0 <= i < self@.len() ==> !covers(#[trigger] self@[i], path@, true),
            r is Some ==> exists|i: int| chosen(self@, path@, true, i) && *r.unwrap() == self@[i],
    {
        self.find(path, true)
    }

    /// Keeps the mounts whose flag in `keep` is set, in order.
    pub fn retain_where(&mut self, keep: &Vec<bool>)
        requires
            keep@.len() == old(self)@.len(),
        ensures
            final(self)@ == kept(old(self)@, keep@),
    {
        let mut out: Vec<MountInfo> = Vec::new();
        let mut i: usize = 0;
        while i < self.mounts.len()
            invariant
                i <= self.mounts@.len(),
                keep@.len() == self.mounts@.len(),
                self.mounts@ == old(self)@,
                out@ == kept(self.mounts@.subrange(0, i as int), keep@),
            decreases self.mounts@.len() - i,
        {
            proof {
                assert(self.mounts@.subrange(0, i + 1).drop_last() =~= self.mounts@.subrange(0, i as int));
            }
            if keep[i] {
                out.push(self.mounts[i].duplicate());
            }
            i += 1;
        }
        assert(self.mounts@.subrange(0, self.mounts@.len() as int) =~= self.mounts@);
        self.mounts = out;
    }

    /// Drops the mounts whose serving process no longer exists, where the system shows
    /// live processes under `/proc` (`has_proc`, as Linux does). Which processes exist
    /// depends on the system; what remains is the old list with some entries left out.
    /// Without `/proc` there is no way to tell, so every mount is kept.
    pub fn cleanup_stale(&mut self, has_proc: bool)
        ensures
            !has_proc ==> final(self)@ == old(self)@,
            exists|keep: Seq<bool>| keep.len() == old(self)@.len() && final(self)@ == kept(old(self)@, keep),
    {
        if !has_proc {
            proof {
                let keep = Seq::new(old(self)@.len(), |i: int| true);
                lemma_kept_all(old(self)@, keep);
            }
            return;
        }
        let mut keep: Vec<bool> = Vec::new();
        let mut i: usize = 0;
        while i < self.mounts.len()
            invariant
                i <= self.mounts@.len(),
                keep@.len() == i,
            decreases self.mounts@.len() - i,
        {
            keep.push(is_process_alive(self.mounts[i].pid));
            i += 1;
        }
        self.retain_where(&keep);
    }

    /// Drops the mounts whose serving process is not in its process listing:
    /// `listings[i]` is what the system's process list printed when asked for the
    /// process of mount `i` (`tasklist` on Windows; empty when it could not be run), and
    /// a mount stays when its process id appears in that text.
    pub fn cleanup_with_listings(&mut self, listings: &Vec<String>)
        requires
            listings@.len() == old(self)@.len(),
        ensures
            final(self)@ == kept(old(self)@, listed_flags(old(self)@, listings@)),
    {
        let mut keep: Vec<bool> = Vec::new();
        let mut i: usize = 0;
        while i < self.mounts.len()
            invariant
                i <= self.mounts@.len(),
                self.mounts@ == old(self)@,
                listings@.len() == self.mounts@.len(),
                keep@.len() == i,
                forall|k: int| 0 <= k < i ==> keep@[k] == listed_flags(old(self)@, listings@)[k],
            decreases self.mounts@.len() - i,
        {
            keep.push(output_mentions_pid(listings[i].as_str(), self.mounts[i].pid));
            i += 1;
        }
        assert(keep@ =~= listed_flags(old(self)@, listings@));
        self.retain_where(&keep);
    }

    /// All registered mounts.
    pub fn mounts(&self) -> (r: &[MountInfo])
        ensures
            r@ == self@,
    {
        self.mounts.as_slice()
    }
}


/// No two mounts share a mount point.
pub open spec fn unique_points(ms: Seq<MountInfo>) -> bool {
    forall|i: int, j: int|
        0 <= i < j < ms.len() ==> (#[trigger] ms[i]).mount_point@ != (#[trigger] ms[j]).mount_point@
}

proof fn lemma_without_unique(ms: Seq<MountInfo>, mp: Seq<char>)
    requires
        unique_points(ms),
    ensures
        unique_points(without_mount_point(ms, mp)),
    decreases ms.len(),
{
    reveal_with_fuel(Seq::<_>::filter, 1);
    if ms.len() > 0 {
        let init = ms.drop_last();
        assert(unique_points(init)) by {
            assert forall|i: int, j: int| 0 <= i < j < init.len() implies (#[trigger] init[i]).mount_point@
                != (#[trigger] init[j]).mount_point@ by {
                assert(init[i] == ms[i] && init[j] == ms[j]);
            }
        }
        lemma_without_unique(init, mp);
        let pred = other_point(mp);
        let f = init.filter(pred);
        assert(without_mount_point(init, mp) == f);
        if pred(ms.last()) {
            assert forall|i: int| 0 <= i < f.len() implies f[i].mount_point@ != ms.last().mount_point@ by {
                init.lemma_filter_contains_rev(pred, f[i]);
                let k = choose|k: int| 0 <= k < init.len() && init[k] == f[i];
                assert(ms[k] == init[k]);
                assert(ms.last() == ms[ms.len() - 1]);
            }
            let r = f.push(ms.last());
            assert(without_mount_point(ms, mp) == r);
            assert forall|i: int, j: int| 0 <= i < j < r.len() implies (#[trigger] r[i]).mount_point@
                != (#[trigger] r[j]).mount_point@ by {
                if j == r.len() - 1 {
                    assert(r[i] == f[i]);
                } else {
                    assert(r[i] == f[i] && r[j] == f[j]);
                }
            }
        } else {
            assert(without_mount_point(ms, mp) =~= f);
        }
    }
}

/// Registering replaces: afterwards the new entry is the last one and the only one with
/// its mount point; every other mount is kept; and mount points stay unique.
pub proof fn law_register_replaces(ms: Seq<MountInfo>, info: MountInfo)
    ensures
        ({
            let r = without_mount_point(ms, info.mount_point@).push(info);
            &&& r.last() == info
            &&& forall|i: int| 0 <= i < r.len() - 1 ==> (#[trigger] r[i]).mount_point@ != info.mount_point@
            &&& forall|i: int|
                0 <= i < ms.len() && (#[trigger] ms[i]).mount_point@ != info.mount_point@ ==> r.contains(ms[i])
            &&& unique_points(ms) ==> unique_points(r)
        }),
{
    let pred = other_point(info.mount_point@);
    let f = ms.filter(pred);
    let r = f.push(info);
    assert(without_mount_point(ms, info.mount_point@) == f);
    assert forall|i: int| 0 <= i < r.len() - 1 implies (#[trigger] r[i]).mount_point@ != info.mount_point@ by {
        assert(r[i] == f[i]);
        ms.lemma_filter_pred(pred, i);
    }
    assert forall|i: int|
        0 <= i < ms.len() && (#[trigger] ms[i]).mount_point@ != info.mount_point@ implies r.contains(ms[i]) by {
        ms.lemma_filter_contains(pred, i);
        let k = choose|k: int| 0 <= k < f.len() && f[k] == ms[i];
        assert(r[k] == f[k]);
    }
    if unique_points(ms) {
        lemma_without_unique(ms, info.mount_point@);
        assert forall|i: int, j: int| 0 <= i < j < r.len() implies (#[trigger] r[i]).mount_point@
            != (#[trigger] r[j]).mount_point@ by {
            if j == r.len() - 1 {
                assert(r[i] == f[i]);
                ms.lemma_filter_pred(pred, i);
            } else {
                assert(r[i] == f[i] && r[j] == f[j]);
            }
        }
    }
}

/// Unregistering removes every entry for the mount point, keeps every other mount, and
/// keeps mount points unique.
pub proof fn law_unregister_removes(ms: Seq<MountInfo>, mp: Seq<char>)
    ensures
        unique_points(ms) ==> unique_points(without_mount_point(ms, mp)),
        forall|i: int|
            0 <= i < without_mount_point(ms, mp).len() ==> (#[trigger] without_mount_point(ms, mp)[i]).mount_point@ != mp,
        forall|i: int|
            0 <= i < ms.len() && (#[trigger] ms[i]).mount_point@ != mp ==> without_mount_point(ms, mp).contains(ms[i]),
{
    if unique_points(ms) {
        lemma_without_unique(ms, mp);
    }
    let pred = other_point(mp);
    assert forall|i: int| 0 <= i < without_mount_point(ms, mp).len() implies (#[trigger] without_mount_point(ms, mp)[i]).mount_point@ != mp by {
        ms.lemma_filter_pred(pred, i);
    }
    assert forall|i: int| 0 <= i < ms.len() && (#[trigger] ms[i]).mount_point@ != mp implies without_mount_point(
        ms,
        mp,
    ).contains(ms[i]) by {
        ms.lemma_filter_contains(pred, i);
    }
}

/// Every mount that `kept` keeps is one of the given mounts, at an index no later than
/// its own, and the kept mounts come in their old order.
proof fn lemma_kept_from(ms: Seq<MountInfo>, keep: Seq<bool>)
    requires
        keep.len() == ms.len(),
    ensures
        exists|f: Seq<int>|
            #![trigger f.len()]
            f.len() == kept(ms, keep).len() && (forall|k: int|
                0 <= k < f.len() ==> 0 <= #[trigger] f[k] < ms.len() && kept(ms, keep)[k] == ms[f[k]])
                && (forall|k: int, l: int| 0 <= k < l < f.len() ==> #[trigger] f[k] < #[trigger] f[l]),
    decreases ms.len(),
{
    if ms.len() == 0 {
        let f = Seq::<int>::empty();
        assert(f.len() == kept(ms, keep).len());
    } else {
        let init = ms.drop_last();
        lemma_kept_from(init, keep.subrange(0, init.len() as int));
        assert(kept(init, keep.subrange(0, init.len() as int)) == kept(init, keep)) by {
            lemma_kept_prefix(init, keep);
        }
        let g = choose|f: Seq<int>|
            #![trigger f.len()]
            f.len() == kept(init, keep.subrange(0, init.len() as int)).len() && (forall|k: int|
                0 <= k < f.len() ==> 0 <= #[trigger] f[k] < init.len() && kept(
                    init,
                    keep.subrange(0, init.len() as int),
                )[k] == init[f[k]]) && (forall|k: int, l: int|
                0 <= k < l < f.len() ==> #[trigger] f[k] < #[trigger] f[l]);
        if keep[ms.len() - 1] {
            let f = g.push(ms.len() - 1);
            assert(kept(ms, keep) == kept(init, keep).push(ms.last()));
            assert(f.len() == kept(ms, keep).len());
            assert forall|k: int| 0 <= k < f.len() implies 0 <= #[trigger] f[k] < ms.len() && kept(
                ms,
                keep,
            )[k] == ms[f[k]] by {
                if k < g.len() {
                    assert(f[k] == g[k]);
                    assert(init[g[k]] == ms[g[k]]);
                }
            }
            assert forall|k: int, l: int| 0 <= k < l < f.len() implies #[trigger] f[k] < #[trigger] f[l] by {
                if l < g.len() {
                    assert(f[k] == g[k] && f[l] == g[l]);
                } else {
                    assert(f[k] == g[k]);
                }
            }
        } else {
            assert(kept(ms, keep) =~= kept(init, keep));
            assert forall|k: int| 0 <= k < g.len() implies 0 <= #[trigger] g[k] < ms.len() && kept(
                ms,
                keep,
            )[k] == ms[g[k]] by {
                assert(init[g[k]] == ms[g[k]]);
            }
        }
    }
}

/// `kept` reads only as many flags as there are mounts.
proof fn lemma_kept_prefix(ms: Seq<MountInfo>, keep: Seq<bool>)
    requires
        ms.len() <= keep.len(),
    ensures
        kept(ms, keep.subrange(0, ms.len() as int)) == kept(ms, keep),
    decreases ms.len(),
{
    if ms.len() > 0 {
        let init = ms.drop_last();
        lemma_kept_prefix(init, keep);
        lemma_kept_prefix(init, keep.subrange(0, ms.len() as int));
        assert(keep.subrange(0, ms.len() as int).subrange(0, init.len() as int) =~= keep.subrange(
            0,
            init.len() as int,
        ));
    }
}

/// Keeping some of the mounts keeps their mount points unique, and every mount kept was
/// registered before.
pub proof fn law_retain_keeps_unique(ms: Seq<MountInfo>, keep: Seq<bool>)
    requires
        keep.len() == ms.len(),
    ensures
        unique_points(ms) ==> unique_points(kept(ms, keep)),
        forall|k: int| 0 <= k < kept(ms, keep).len() ==> ms.contains(#[trigger] kept(ms, keep)[k]),
{
    lemma_kept_from(ms, keep);
    let r = kept(ms, keep);
    let f = choose|f: Seq<int>|
        #![trigger f.len()]
        f.len() == kept(ms, keep).len() && (forall|k: int|
            0 <= k < f.len() ==> 0 <= #[trigger] f[k] < ms.len() && kept(ms, keep)[k] == ms[f[k]])
            && (forall|k: int, l: int| 0 <= k < l < f.len() ==> #[trigger] f[k] < #[trigger] f[l]);
    assert forall|k: int| 0 <= k < r.len() implies ms.contains(#[trigger] r[k]) by {
        assert(0 <= f[k] < ms.len() && r[k] == ms[f[k]]);
    }
    if unique_points(ms) {
        assert forall|i: int, j: int| 0 <= i < j < r.len() implies (#[trigger] r[i]).mount_point@
            != (#[trigger] r[j]).mount_point@ by {
            assert(f[i] < f[j]);
            assert(r[i] == ms[f[i]] && r[j] == ms[f[j]]);
        }
    }
}

} // verus!
