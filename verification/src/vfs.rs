//! The encoding-aware virtual filesystem: which files are visible, which encoding a
//! file is read and written in, and what bytes go to and come from the backend.
//! The backend itself (the disk) is reached by the caller, which hands the bytes in.

use vstd::prelude::*;
use crate::cache::EncodingCache;
use crate::config::EncodingConfig;
use crate::detector::{detect_encoding, detected};
use crate::encoding::{
    TextEncoding, get_encoding, encoding_for_upper, spec_to_uppercase, to_encoding, from_encoding,
    converted, source_text, spec_encode, spec_decode, ascii_compatible, all_ascii_bytes, outputs_utf8,
    lemma_ascii_decode, starts_with_bom,
};
use vstd::utf8::valid_utf8;
use crate::error::VfsError;
use crate::filter::{
    VfsFilter, compiled, views, passthrough, hidden, slashed, line_patterns, pattern_matches,
    rules_fit, rule_fits, last_match, last_match_upto, PatternView,
};
use crate::text::{eq_ignore_ascii_case, ascii_lower_seq, chars_of, string_of};

verus! {

#[verifier::external_type_specification]
#[verifier::external_body]
pub struct ExSystemTime(std::time::SystemTime);

/// File information.
pub struct FileInfo {
    pub size: u64,
    pub created: std::time::SystemTime,
    pub modified: std::time::SystemTime,
    pub accessed: std::time::SystemTime,
    pub is_dir: bool,
}

/// A directory entry.
pub struct DirEntry {
    pub name: String,
    pub is_dir: bool,
    pub size: u64,
    pub modified: std::time::SystemTime,
}

/// `rel` joined onto `base`, as `Path::join` does with `/` separators: an absolute
/// `rel` replaces `base`, and a separator is put between them unless `base` is empty
/// or already ends with one.
pub open spec fn join(base: Seq<char>, rel: Seq<char>) -> Seq<char> {
    if rel.len() > 0 && rel[0] == '/' {
        rel
    } else if base.len() == 0 {
        rel
    } else if base.last() == '/' {
        base + rel
    } else {
        base + seq!['/'] + rel
    }
}

/// Joins a relative path onto a base directory.
pub fn join_path(base: &str, rel: &str) -> (r: String)
    ensures
        r@ == join(base@, rel@),
{
    let b = chars_of(base);
    let r = chars_of(rel);
    if r.len() > 0 && r[0] == '/' {
        return string_of(&r);
    }
    if b.len() == 0 {
        return string_of(&r);
    }
    let mut out = b.clone();
    if b[b.len() - 1] != '/' {
        out.push('/');
    }
    let mut i: usize = 0;
    let ghost start = out@;
    while i < r.len()
        invariant
            i <= r@.len(),
            out@ == start + r@.subrange(0, i as int),
        decreases r@.len() - i,
    {
        out.push(r[i]);
        i += 1;
    }
    assert(r@.subrange(0, r@.len() as int) =~= r@);
    string_of(&out)
}

/// The content after writing `data` at `offset` into `existing`: the bytes before the
/// offset are kept (padded with spaces when the offset is past the end), `data` follows,
/// and whatever `existing` held beyond the written range comes after.
pub open spec fn spliced(existing: Seq<u8>, offset: int, data: Seq<u8>) -> Seq<u8> {
    let head = if offset < existing.len() {
        existing.subrange(0, offset)
    } else {
        existing + Seq::new((offset - existing.len()) as nat, |i: int| 0x20u8)
    };
    let tail = if offset + data.len() < existing.len() {
        existing.subrange(offset + data.len(), existing.len() as int)
    } else {
        Seq::empty()
    };
    head + data + tail
}

/// Writes `data` at `offset` into `existing`.
pub fn splice(existing: &[u8], offset: usize, data: &[u8]) -> (r: Vec<u8>)
    requires
        offset + data@.len() <= usize::MAX,
    ensures
        r@ == spliced(existing@, offset as int, data@),
{
    let mut combined: Vec<u8> = Vec::new();
    let mut i: usize = 0;
    let keep = if offset < existing.len() {
        offset
    } else {
        existing.len()
    };
    while i < keep
        invariant
            keep <= existing@.len(),
            i <= keep,
            combined@ == existing@.subrange(0, i as int),
        decreases keep - i,
    {
        combined.push(existing[i]);
        i += 1;
    }
    while combined.len() < offset
        invariant
            keep <= existing@.len(),
            keep <= offset,
            keep <= combined@.len() <= offset,
            combined@.subrange(0, keep as int) == existing@.subrange(0, keep as int),
            forall|j: int| keep <= j < combined@.len() ==> combined@[j] == 0x20u8,
        decreases offset - combined@.len(),
    {
        combined.push(0x20u8);
    }
    proof {
        let head = if offset < existing@.len() {
            existing@.subrange(0, offset as int)
        } else {
            existing@ + Seq::new((offset - existing@.len()) as nat, |i: int| 0x20u8)
        };
        assert(combined@.len() == offset);
        if offset < existing@.len() {
            assert(keep == offset);
            assert(combined@ =~= combined@.subrange(0, keep as int));
        } else {
            assert(keep == existing@.len());
            assert(existing@.subrange(0, keep as int) =~= existing@);
            assert forall|j: int| 0 <= j < combined@.len() implies combined@[j] == head[j] by {
                if j < keep {
                    assert(combined@.subrange(0, keep as int)[j] == existing@.subrange(0, keep as int)[j]);
                }
            }
        }
        assert(combined@ =~= head);
    }
    let ghost head = combined@;
    let mut j: usize = 0;
    while j < data.len()
        invariant
            j <= data@.len(),
            combined@ == head + data@.subrange(0, j as int),
        decreases data@.len() - j,
    {
        combined.push(data[j]);
        j += 1;
    }
    assert(data@.subrange(0, data@.len() as int) =~= data@);
    let ghost before_tail = combined@;
    let new_end = offset + data.len();
    if new_end < existing.len() {
        let mut k = new_end;
        while k < existing.len()
            invariant
                new_end <= k <= existing@.len(),
                combined@ == before_tail + existing@.subrange(new_end as int, k as int),
            decreases existing@.len() - k,
        {
            combined.push(existing[k]);
            k += 1;
        }
    }
    assert(combined@ =~= spliced(existing@, offset as int, data@));
    combined
}

/// The bytes of `view` from `offset` on, at most `len` of them; nothing past the end.
pub open spec fn window(view: Seq<u8>, offset: int, len: int) -> Seq<u8> {
    let n = view.len() as int;
    let a = if offset < n {
        offset
    } else {
        n
    };
    let b = if offset + len < n {
        offset + len
    } else {
        n
    };
    view.subrange(a, b)
}

/// The bytes of `view` from `offset` on, at most `len` of them.
pub fn read_window(view: &[u8], offset: u64, len: usize) -> (r: Vec<u8>)
    ensures
        r@ == window(view@, offset as int, len as int),
{
    let n = view.len();
    let a: usize = if (offset as u128) < (n as u128) {
        offset as usize
    } else {
        n
    };
    let b: usize = if (offset as u128) + (len as u128) < (n as u128) {
        a + len
    } else {
        n
    };
    let mut r: Vec<u8> = Vec::new();
    let mut i = a;
    while i < b
        invariant
            a <= i <= b <= view@.len(),
            r@ == view@.subrange(a as int, i as int),
        decreases b - i,
    {
        r.push(view[i]);
        i += 1;
    }
    r
}

/// A copy of the bytes `v`.
fn copy_bytes(v: &[u8]) -> (r: Vec<u8>)
    ensures
        r@ == v@,
{
    let mut r: Vec<u8> = Vec::new();
    let mut i: usize = 0;
    while i < v.len()
        invariant
            i <= v@.len(),
            r@ == v@.subrange(0, i as int),
        decreases v@.len() - i,
    {
        r.push(v[i]);
        i += 1;
    }
    assert(r@ =~= v@);
    r
}

/// The passthrough rule lines that the configuration gives.
pub open spec fn passthrough_lines(cfg: EncodingConfig) -> Seq<Seq<char>> {
    match cfg.filter {
        Some(fc) => views(fc.rules@),
        None => seq![],
    }
}

/// The hidden rule lines that the configuration gives: `.git/` first, always.
pub open spec fn hidden_lines(cfg: EncodingConfig) -> Seq<Seq<char>> {
    match cfg.filter {
        Some(fc) => seq![".git/"@] + views(fc.hidden@),
        None => seq![".git/"@],
    }
}

/// Every configured rule line is short enough to compile (see `rule_fits`).
pub open spec fn config_rules_fit(cfg: EncodingConfig) -> bool {
    match cfg.filter {
        Some(fc) => rules_fit(views(fc.rules@)) && rules_fit(views(fc.hidden@)),
        None => true,
    }
}

/// The source encoding setting asks for per-file detection ("auto", in any ASCII case).
pub open spec fn is_auto(source: Seq<char>) -> bool {
    ascii_lower_seq(source) == ascii_lower_seq("auto"@)
}

/// The encoding that a configured name selects.
pub open spec fn selected(name: Seq<char>) -> Option<Seq<char>> {
    encoding_for_upper(spec_to_uppercase(name))
}

/// Why a configuration is refused, if it is: the first of the fallback, target and
/// (unless "auto") source encoding names that selects no encoding.
pub open spec fn config_refusal(cfg: EncodingConfig) -> Option<Seq<char>> {
    if selected(cfg.default_encoding@) is None {
        Some("unsupported encoding: "@ + cfg.default_encoding@)
    } else if selected(cfg.target_encoding@) is None {
        Some("unsupported target encoding: "@ + cfg.target_encoding@)
    } else if !is_auto(cfg.source_encoding@) && selected(cfg.source_encoding@) is None {
        Some("unsupported source encoding: "@ + cfg.source_encoding@)
    } else {
        None
    }
}

/// The next step in finding the encoding of a backend file.
pub enum EncodingStep {
    /// The encoding is known.
    Known(TextEncoding),
    /// The first `len` bytes of the file at `full_path` must be read and handed to
    /// `EncodingVfs::finish_detection` (an unreadable file counts as empty).
    NeedSample { full_path: String, len: usize },
}

/// Core encoding-aware virtual filesystem.
pub struct EncodingVfs {
    /// Backend directory holding the files in their original encoding.
    pub backend_dir: String,
    /// Encoding configuration.
    pub encoding_config: EncodingConfig,
    /// Cache of detected encodings.
    pub cache: EncodingCache,
    /// Source encoding (the fallback encoding in "auto" mode).
    pub source_encoding: TextEncoding,
    /// Target encoding: the encoding mounted files appear in.
    pub target_encoding: TextEncoding,
    /// Fallback encoding for detection.
    pub default_encoding: TextEncoding,
    /// Path filter rules.
    pub filter: VfsFilter,
}

fn config_error(prefix: &str, name: &String) -> (r: VfsError)
    ensures
        r matches VfsError::Config(m) && m@ == prefix@ + name@,
{
    let mut m = String::from_str(prefix);
    m.append(name.as_str());
    VfsError::Config(m)
}

fn clone_strings(v: &Vec<String>) -> (r: Vec<String>)
    ensures
        views(r@) == views(v@),
{
    let mut r: Vec<String> = Vec::new();
    let mut i: usize = 0;
    while i < v.len()
        invariant
            i <= v@.len(),
            r@.len() == i,
            views(r@) == views(v@).subrange(0, i as int),
        decreases v@.len() - i,
    {
        let s = v[i].clone();
        assert(s@ == v@[i as int]@);
        let ghost old_r = r@;
        r.push(s);
        assert forall|k: int| 0 <= k < i + 1 implies views(r@)[k] == views(v@).subrange(0, i + 1)[k] by {
            if k < i {
                assert(r@[k] == old_r[k]);
                assert(views(old_r)[k] == views(v@).subrange(0, i as int)[k]);
            }
        }
        assert(views(r@) =~= views(v@).subrange(0, i + 1));
        i += 1;
    }
    assert(views(v@).subrange(0, v@.len() as int) =~= views(v@));
    r
}

impl EncodingVfs {
    /// Builds the filesystem from its configuration, refusing unknown encoding names.
    pub fn new(backend_dir: &str, encoding_config: EncodingConfig) -> (r: Result<EncodingVfs, VfsError>)
        requires
            config_rules_fit(encoding_config),
        ensures
            match r {
                Err(e) => config_refusal(encoding_config) matches Some(m) && e matches VfsError::Config(
                    em,
                ) && em@ == m,
                Ok(v) => {
                    &&& config_refusal(encoding_config) is None
                    &&& v.backend_dir@ == backend_dir@
                    &&& v.encoding_config == encoding_config
                    &&& v.default_encoding@ == selected(encoding_config.default_encoding@).unwrap()
                    &&& v.target_encoding@ == selected(encoding_config.target_encoding@).unwrap()
                    &&& v.source_encoding@ == (if is_auto(encoding_config.source_encoding@) {
                        selected(encoding_config.default_encoding@).unwrap()
                    } else {
                        selected(encoding_config.source_encoding@).unwrap()
                    })
                    &&& v.cache@ == Map::<Seq<char>, Seq<char>>::empty()
                    &&& v.cache.ttl() == encoding_config.cache_ttl_seconds
                    &&& v.cache.limit() == encoding_config.cache_max_entries
                    &&& v.filter@.0 == compiled(passthrough_lines(encoding_config))
                    &&& v.filter@.1 == compiled(hidden_lines(encoding_config))
                },
            },
    {
        let default_encoding = match get_encoding(encoding_config.default_encoding.as_str()) {
            Some(e) => e,
            None => {
                return Err(config_error("unsupported encoding: ", &encoding_config.default_encoding));
            },
        };
        let target_encoding = match get_encoding(encoding_config.target_encoding.as_str()) {
            Some(e) => e,
            None => {
                return Err(
                    config_error("unsupported target encoding: ", &encoding_config.target_encoding),
                );
            },
        };
        let source_encoding = if eq_ignore_ascii_case(encoding_config.source_encoding.as_str(), "auto") {
            default_encoding
        } else {
            match get_encoding(encoding_config.source_encoding.as_str()) {
                Some(e) => e,
                None => {
                    return Err(
                        config_error(
                            "unsupported source encoding: ",
                            &encoding_config.source_encoding,
                        ),
                    );
                },
            }
        };
        let cache = EncodingCache::new(
            encoding_config.cache_max_entries,
            encoding_config.cache_ttl_seconds,
        );
        let mut hidden_rules: Vec<String> = Vec::new();
        hidden_rules.push(String::from_str(".git/"));
        let filter = match &encoding_config.filter {
            Some(fc) => {
                let mut extra = clone_strings(&fc.hidden);
                hidden_rules.append(&mut extra);
                assert(views(hidden_rules@) =~= seq![".git/"@] + views(fc.hidden@));
                proof {
                    reveal_strlit(".git/");
                    assert(rules_fit(views(hidden_rules@))) by {
                        assert forall|i: int| 0 <= i < views(hidden_rules@).len() implies rule_fits(
                            #[trigger] views(hidden_rules@)[i],
                        ) by {
                            if i > 0 {
                                assert(views(hidden_rules@)[i] == views(fc.hidden@)[i - 1]);
                            }
                        }
                    }
                }
                VfsFilter::new(fc.rules.as_slice(), hidden_rules.as_slice())
            },
            None => {
                assert(views(hidden_rules@) =~= seq![".git/"@]);
                proof {
                    reveal_strlit(".git/");
                    assert(rule_fits(views(hidden_rules@)[0]));
                }
                let no_rules: Vec<String> = Vec::new();
                assert(views(no_rules@) =~= Seq::<Seq<char>>::empty());
                VfsFilter::new(no_rules.as_slice(), hidden_rules.as_slice())
            },
        };
        Ok(
            EncodingVfs {
                backend_dir: String::from_str(backend_dir),
                encoding_config,
                cache,
                source_encoding,
                target_encoding,
                default_encoding,
                filter,
            },
        )
    }
}


impl DirEntry {
    /// A copy of this entry.
    pub fn duplicate(&self) -> (r: DirEntry)
        ensures
            r == *self,
    {
        DirEntry { name: self.name.clone(), is_dir: self.is_dir, size: self.size, modified: self.modified }
    }
}

/// The fields that reading and writing leave as they are: everything but the cache.
pub open spec fn same_setup(a: &EncodingVfs, b: &EncodingVfs) -> bool {
    &&& a.backend_dir == b.backend_dir
    &&& a.encoding_config == b.encoding_config
    &&& a.source_encoding == b.source_encoding
    &&& a.target_encoding == b.target_encoding
    &&& a.default_encoding == b.default_encoding
    &&& a.filter == b.filter
    &&& a.cache.ttl() == b.cache.ttl()
    &&& a.cache.limit() == b.cache.limit()
}

/// A directory entry stays listed unless its path (the directory joined with its name)
/// is hidden.
pub open spec fn entry_visible(v: &EncodingVfs, rel_dir: Seq<char>, e: DirEntry) -> bool {
    !hidden(v.filter@.1, slashed(join(rel_dir, e.name@)))
}

/// What a file shows at the mount point, for backend content `raw` in encoding `src`:
/// the content itself for a passthrough file, else the whole content converted to the
/// target encoding. Offsets of reads and writes count in this view.
pub open spec fn file_view(v: &EncodingVfs, rel_path: Seq<char>, raw: Seq<u8>, src: Seq<char>) -> Seq<u8> {
    if passthrough(v.filter@.0, slashed(rel_path)) {
        raw
    } else {
        converted(raw, src, v.target_encoding@).0
    }
}

impl EncodingVfs {
    /// The backend path of a path relative to the backend directory.
    pub fn full_path(&self, rel_path: &str) -> (r: String)
        ensures
            r@ == join(self.backend_dir@, rel_path@),
    {
        join_path(self.backend_dir.as_str(), rel_path)
    }

    /// The backend path of a visible file; a hidden file is reported as not found.
    pub fn locate(&self, rel_path: &str) -> (r: Result<String, VfsError>)
        ensures
            hidden(self.filter@.1, slashed(rel_path@)) ==> (r matches Err(VfsError::NotFound(p))
                && p@ == rel_path@),
            !hidden(self.filter@.1, slashed(rel_path@)) ==> (r matches Ok(p) && p@ == join(
                self.backend_dir@,
                rel_path@,
            )),
    {
        if self.filter.is_hidden(rel_path) {
            return Err(VfsError::NotFound(String::from_str(rel_path)));
        }
        Ok(self.full_path(rel_path))
    }

    /// Whether the source encoding is detected per file ("auto").
    pub fn is_auto_source(&self) -> (r: bool)
        ensures
            r == is_auto(self.encoding_config.source_encoding@),
    {
        eq_ignore_ascii_case(self.encoding_config.source_encoding.as_str(), "auto")
    }

    /// How the encoding of the backend file at `full_path` is found for a read: the
    /// configured source encoding, or in "auto" mode the cached detection result, or
    /// else a sample of the file must be read.
    pub fn read_encoding_step(&self, full_path: &str) -> (r: EncodingStep)
        ensures
            !is_auto(self.encoding_config.source_encoding@) ==> (r matches EncodingStep::Known(e)
                && e == self.source_encoding),
            is_auto(self.encoding_config.source_encoding@) ==> match r {
                EncodingStep::Known(e) => self.cache.has(full_path@)
                    && self.cache.cached(full_path@) == e@,
                EncodingStep::NeedSample { full_path: p, len } => p@ == full_path@ && len
                    == self.encoding_config.detect_sample_bytes,
            },
            is_auto(self.encoding_config.source_encoding@) && !self.cache.has(full_path@) ==> r is NeedSample,
    {
        if !self.is_auto_source() {
            return EncodingStep::Known(self.source_encoding);
        }
        match self.cache.get(full_path) {
            Some(e) => EncodingStep::Known(e),
            None => EncodingStep::NeedSample {
                full_path: String::from_str(full_path),
                len: self.encoding_config.detect_sample_bytes,
            },
        }
    }

    /// How the encoding of the file `rel_path` (at `full_path` in the backend) is found
    /// for showing it: a passthrough file is shown as it is, so no encoding is looked for
    /// (the target encoding stands in, and conversion skips it); any other file goes as
    /// `read_encoding_step` says.
    pub fn view_encoding_step(&self, rel_path: &str, full_path: &str) -> (r: EncodingStep)
        ensures
            passthrough(self.filter@.0, slashed(rel_path@)) ==> (r matches EncodingStep::Known(e)
                && e == self.target_encoding),
            !passthrough(self.filter@.0, slashed(rel_path@)) && !is_auto(
                self.encoding_config.source_encoding@,
            ) ==> (r matches EncodingStep::Known(e) && e == self.source_encoding),
            !passthrough(self.filter@.0, slashed(rel_path@)) && is_auto(
                self.encoding_config.source_encoding@,
            ) ==> match r {
                EncodingStep::Known(e) => self.cache.has(full_path@)
                    && self.cache.cached(full_path@) == e@,
                EncodingStep::NeedSample { full_path: p, len } => p@ == full_path@ && len
                    == self.encoding_config.detect_sample_bytes,
            },
            !passthrough(self.filter@.0, slashed(rel_path@)) && is_auto(
                self.encoding_config.source_encoding@,
            ) && !self.cache.has(full_path@) ==> r is NeedSample,
    {
        if self.filter.is_passthrough(rel_path) {
            return EncodingStep::Known(self.target_encoding);
        }
        self.read_encoding_step(full_path)
    }

    /// How the encoding of the backend file at `full_path` is found for a write: as for a
    /// read, except that in "auto" mode a file that does not exist yet gets the fallback
    /// encoding.
    pub fn write_encoding_step(&self, full_path: &str, backend_exists: bool) -> (r: EncodingStep)
        ensures
            !is_auto(self.encoding_config.source_encoding@) ==> (r matches EncodingStep::Known(e)
                && e == self.source_encoding),
            is_auto(self.encoding_config.source_encoding@) && !backend_exists ==> (r matches EncodingStep::Known(e)
                && e == self.default_encoding),
            is_auto(self.encoding_config.source_encoding@) && backend_exists ==> match r {
                EncodingStep::Known(e) => self.cache.has(full_path@)
                    && self.cache.cached(full_path@) == e@,
                EncodingStep::NeedSample { full_path: p, len } => p@ == full_path@ && len
                    == self.encoding_config.detect_sample_bytes,
            },
            is_auto(self.encoding_config.source_encoding@) && backend_exists
                && !self.cache.has(full_path@) ==> r is NeedSample,
    {
        if self.is_auto_source() && !backend_exists {
            return EncodingStep::Known(self.default_encoding);
        }
        self.read_encoding_step(full_path)
    }

    /// Detects the encoding of a file from its first bytes (`sample`) and caches it.
    pub fn finish_detection(&mut self, full_path: &str, sample: &[u8]) -> (r: TextEncoding)
        ensures
            r@ == detected(sample@, old(self).default_encoding@),
            final(self).cache@ == old(self).cache@.insert(crate::cache::cache_key(full_path@), r@),
            same_setup(final(self), old(self)),
    {
        let enc = detect_encoding(sample, self.default_encoding);
        self.cache.insert(full_path, enc);
        enc
    }

    /// Forgets the detected encoding of the backend file at `full_path` after it was
    /// written, removed or renamed, so that the next read detects it afresh. Every other
    /// path keeps its entry.
    pub fn file_changed(&mut self, full_path: &str)
        ensures
            !final(self).cache.has(full_path@),
            final(self).cache@ == old(self).cache@.remove(crate::cache::cache_key(full_path@)),
            same_setup(final(self), old(self)),
    {
        self.cache.invalidate(full_path);
    }

    /// The bytes a read returns for backend bytes `raw`: unchanged for a passthrough file,
    /// else converted from the file's encoding `src` to the target encoding. The flag says
    /// whether the conversion replaced anything.
    pub fn convert_for_read(&self, rel_path: &str, raw: Vec<u8>, src: TextEncoding) -> (r: (
        Vec<u8>,
        bool,
    ))
        ensures
            passthrough(self.filter@.0, slashed(rel_path@)) ==> r.0@ == raw@ && !r.1,
            !passthrough(self.filter@.0, slashed(rel_path@)) ==> (r.0@, r.1) == converted(
                raw@,
                src@,
                self.target_encoding@,
            ),
            ascii_compatible(src@) && all_ascii_bytes(raw@) && (outputs_utf8(self.target_encoding@)
                || ascii_compatible(self.target_encoding@)) ==> r.0@ == raw@ && !r.1,
            src@ == "UTF-8"@ && outputs_utf8(self.target_encoding@) && !starts_with_bom(raw@)
                && valid_utf8(raw@) ==> r.0@ == raw@ && !r.1,
    {
        if self.filter.is_passthrough(rel_path) {
            return (raw, false);
        }
        to_encoding(raw.as_slice(), src, self.target_encoding)
    }

    /// What a read at `offset` of at most `len` bytes returns, for the whole backend
    /// content `raw` of the file in encoding `src`: the whole content is shown as the file
    /// appears at the mount point (see `file_view`) and the window at `offset` is cut from
    /// that, so consecutive reads put the shown file back together. The flag says whether
    /// the conversion replaced anything.
    pub fn read_view(&self, rel_path: &str, raw: Vec<u8>, src: TextEncoding, offset: u64, len: usize) -> (r: (
        Vec<u8>,
        bool,
    ))
        ensures
            r.0@ == window(file_view(self, rel_path@, raw@, src@), offset as int, len as int),
            passthrough(self.filter@.0, slashed(rel_path@)) ==> !r.1,
            !passthrough(self.filter@.0, slashed(rel_path@)) ==> r.1 == converted(
                raw@,
                src@,
                self.target_encoding@,
            ).1,
            ascii_compatible(src@) && all_ascii_bytes(raw@) && (outputs_utf8(self.target_encoding@)
                || ascii_compatible(self.target_encoding@)) ==> r.0@ == window(
                raw@,
                offset as int,
                len as int,
            ) && !r.1,
            src@ == "UTF-8"@ && outputs_utf8(self.target_encoding@) && !starts_with_bom(raw@)
                && valid_utf8(raw@) ==> r.0@ == window(raw@, offset as int, len as int) && !r.1,
    {
        let (view, had_errors) = self.convert_for_read(rel_path, raw, src);
        (read_window(view.as_slice(), offset, len), had_errors)
    }

    /// The size a file shows at the mount point, for its whole backend content `raw` in
    /// encoding `src`: the length of `file_view`.
    pub fn view_size(&self, rel_path: &str, raw: &[u8], src: TextEncoding) -> (r: u64)
        ensures
            r == file_view(self, rel_path@, raw@, src@).len(),
    {
        let (view, _) = self.convert_for_read(rel_path, copy_bytes(raw), src);
        view.len() as u64
    }

    /// The bytes a write stores in the backend file `rel_path`, whose encoding is `src`.
    /// At offset 0 they are `data` converted from the target encoding to `src`. At a later
    /// offset the file as it shows at the mount point (`file_view` of its whole backend
    /// content `raw`) gets `data` spliced in at that offset, and the whole result is
    /// converted. The flag says whether converting `data` itself replaced anything.
    pub fn encode_for_write(&self, rel_path: &str, offset: u64, data: &[u8], src: TextEncoding, raw: &[u8]) -> (r: (
        Vec<u8>,
        bool,
    ))
        requires
            offset > 0 ==> offset + data@.len() <= usize::MAX,
        ensures
            r.1 == spec_encode(src@, source_text(data@, self.target_encoding@)).1,
            offset == 0 ==> r.0@ == spec_encode(src@, source_text(data@, self.target_encoding@)).0,
            offset > 0 ==> r.0@ == spec_encode(
                src@,
                source_text(
                    spliced(file_view(self, rel_path@, raw@, src@), offset as int, data@),
                    self.target_encoding@,
                ),
            ).0,
            offset == 0 && self.target_encoding@ == "UTF-8"@ && all_ascii_bytes(data@)
                && ascii_compatible(src@) ==> r.0@ == data@ && !r.1,
            offset == 0 && self.target_encoding@ == "UTF-8"@ && src@ == "UTF-8"@ && valid_utf8(
                data@,
            ) ==> r.0@ == data@ && !r.1,
    {
        proof {
            if all_ascii_bytes(data@) {
                lemma_ascii_decode(data@);
            }
        }
        let (decoded, had_errors) = from_encoding(data, self.target_encoding, src);
        if offset > 0 {
            let (existing, _) = self.convert_for_read(rel_path, copy_bytes(raw), src);
            let combined = splice(existing.as_slice(), offset as usize, data);
            let (full_encoded, _) = from_encoding(combined.as_slice(), self.target_encoding, src);
            return (full_encoded, had_errors);
        }
        (decoded, had_errors)
    }

    /// The size a file shows in the target encoding, for backend content `raw` in `src`.
    pub fn converted_size(&self, raw: &[u8], src: TextEncoding) -> (r: u64)
        ensures
            r == converted(raw@, src@, self.target_encoding@).0.len(),
    {
        let (converted, _) = to_encoding(raw, src, self.target_encoding);
        converted.len() as u64
    }

    /// The entries of a directory that stay visible.
    pub fn visible_entries(&self, rel_dir: &str, entries: &[DirEntry]) -> (r: Vec<DirEntry>)
        ensures
            r@ == entries@.filter(|e: DirEntry| entry_visible(self, rel_dir@, e)),
    {
        let ghost pred = |e: DirEntry| entry_visible(self, rel_dir@, e);
        let mut out: Vec<DirEntry> = Vec::new();
        let mut i: usize = 0;
        while i < entries.len()
            invariant
                i <= entries@.len(),
                pred == (|e: DirEntry| entry_visible(self, rel_dir@, e)),
                out@ == entries@.subrange(0, i as int).filter(pred),
            decreases entries@.len() - i,
        {
            proof {
                reveal_with_fuel(Seq::<_>::filter, 1);
                assert(entries@.subrange(0, i + 1).drop_last() =~= entries@.subrange(0, i as int));
            }
            let entry_path = join_path(rel_dir, entries[i].name.as_str());
            if !self.filter.is_hidden(entry_path.as_str()) {
                out.push(entries[i].duplicate());
            }
            i += 1;
        }
        assert(entries@.subrange(0, entries@.len() as int) =~= entries@);
        out
    }

    /// Whether a file exists for the mounted filesystem: it exists in the backend and is
    /// not hidden.
    pub fn path_exists(&self, rel_path: &str, backend_exists: bool) -> (r: bool)
        ensures
            r == (backend_exists && !hidden(self.filter@.1, slashed(rel_path@))),
    {
        if self.filter.is_hidden(rel_path) {
            return false;
        }
        backend_exists
    }

    /// Whether a path is a directory for the mounted filesystem: it is one in the backend
    /// and is not hidden.
    pub fn is_dir(&self, rel_path: &str, backend_is_dir: bool) -> (r: bool)
        ensures
            r == (backend_is_dir && !hidden(self.filter@.1, slashed(rel_path@))),
    {
        if self.filter.is_hidden(rel_path) {
            return false;
        }
        backend_is_dir
    }
}


/// Writing at an offset, read back: the written bytes sit at the offset, the bytes
/// before it and after the written range are the old ones, a gap past the old end is
/// filled with spaces, and the content ends at the later of the old end and the end of
/// the written range.
pub proof fn law_splice_reads_back(existing: Seq<u8>, offset: int, data: Seq<u8>)
    requires
        offset >= 0,
    ensures
        ({
            let r = spliced(existing, offset, data);
            &&& r.len() == (if offset + data.len() > existing.len() {
                offset + data.len()
            } else {
                existing.len() as int
            })
            &&& r.subrange(offset, offset + data.len()) == data
            &&& forall|i: int| 0 <= i < offset && i < existing.len() ==> r[i] == existing[i]
            &&& forall|i: int| existing.len() <= i < offset ==> r[i] == 0x20u8
            &&& forall|i: int| offset + data.len() <= i < existing.len() ==> r[i] == existing[i]
        }),
{
    let r = spliced(existing, offset, data);
    let head = if offset < existing.len() {
        existing.subrange(0, offset)
    } else {
        existing + Seq::new((offset - existing.len()) as nat, |i: int| 0x20u8)
    };
    assert(head.len() == offset);
    assert(r.subrange(offset, offset + data.len()) =~= data);
}

/// The patterns of consecutive rule lists are the patterns of each list, in order.
pub proof fn lemma_compiled_concat(a: Seq<Seq<char>>, b: Seq<Seq<char>>)
    ensures
        compiled(a + b) == compiled(a) + compiled(b),
    decreases b.len(),
{
    if b.len() == 0 {
        assert(a + b =~= a);
        assert(compiled(b) =~= Seq::<crate::filter::PatternView>::empty());
        assert(compiled(a) + compiled(b) =~= compiled(a));
    } else {
        lemma_compiled_concat(a, b.drop_last());
        assert((a + b).drop_last() =~= a + b.drop_last());
        assert((a + b).last() == b.last());
        assert(compiled(a) + compiled(b) =~= compiled(a) + compiled(b.drop_last()) + line_patterns(b.last()));
    }
}

/// The first `n` patterns of `a + b` decide as the first `n` of `a` do, for `n` up to
/// the length of `a`.
proof fn lemma_last_match_prefix(a: Seq<PatternView>, b: Seq<PatternView>, path: Seq<char>, n: int)
    requires
        0 <= n <= a.len(),
    ensures
        last_match_upto(a + b, path, n) == last_match_upto(a, path, n),
    decreases n,
{
    if n > 0 {
        assert((a + b)[n - 1] == a[n - 1]);
        lemma_last_match_prefix(a, b, path, n - 1);
    }
}

/// Patterns appended after a list that selects a path keep it selected, as long as none
/// of them that matches the path is negated.
pub proof fn lemma_last_match_kept(a: Seq<PatternView>, b: Seq<PatternView>, path: Seq<char>, k: int)
    requires
        0 <= k <= b.len(),
        last_match(a, path),
        forall|j: int| 0 <= j < b.len() && pattern_matches(#[trigger] b[j], path) ==> !b[j].1,
    ensures
        last_match_upto(a + b, path, a.len() + k),
    decreases k,
{
    if k == 0 {
        lemma_last_match_prefix(a, b, path, a.len() as int);
    } else {
        assert((a + b)[a.len() + k - 1] == b[k - 1]);
        lemma_last_match_kept(a, b, path, k - 1);
    }
}

/// `.git` is hidden by default: every path that the `.git/` rule hides stays hidden,
/// since that rule comes first, unless a configured hidden rule with `!` matches it
/// (the last matching rule decides).
pub proof fn law_git_hidden_by_default(cfg: EncodingConfig, path: Seq<char>)
    requires
        hidden(compiled(seq![".git/"@]), path),
        cfg.filter matches Some(fc) ==> forall|j: int|
            0 <= j < compiled(views(fc.hidden@)).len() && pattern_matches(
                #[trigger] compiled(views(fc.hidden@))[j],
                path,
            ) ==> !compiled(views(fc.hidden@))[j].1,
    ensures
        hidden(compiled(hidden_lines(cfg)), path),
{
    let git = seq![".git/"@];
    match cfg.filter {
        Some(fc) => {
            lemma_compiled_concat(git, views(fc.hidden@));
            assert(hidden_lines(cfg) == git + views(fc.hidden@));
            let a = compiled(git);
            let b = compiled(views(fc.hidden@));
            lemma_last_match_kept(a, b, path, b.len() as int);
            assert(a + b == compiled(hidden_lines(cfg)));
        },
        None => {},
    }
}

/// The `.git/` rule hides the directory `.git` and everything below it (each pattern
/// kept when globset accepts it).
pub proof fn law_git_rule_patterns()
    ensures
        compiled(seq![".git/"@]) == crate::filter::glob_entry(".git"@, false) + crate::filter::glob_entry(
            ".git/**"@,
            false,
        ),
{
    reveal_strlit(".git/");
    reveal_strlit(".git");
    reveal_strlit(".git/**");
    let git = seq![".git/"@];
    assert(git.drop_last() =~= Seq::<Seq<char>>::empty());
    assert(compiled(git.drop_last()) =~= Seq::<crate::filter::PatternView>::empty());
    assert(git.last() == ".git/"@);
    assert(compiled(git) =~= line_patterns(".git/"@));
    assert(".git/"@ =~= ".git"@.push('/'));
    crate::filter::law_directory_rule(".git"@);
    assert(".git"@ + seq!['/', '*', '*'] =~= ".git/**"@);
}

/// Reads in consecutive chunks put the shown file back together: the window at `offset`
/// of `a` bytes followed by the window right after it of `b` bytes is the window at
/// `offset` of `a + b` bytes.
pub proof fn law_chunked_reads_concatenate(view: Seq<u8>, offset: int, a: int, b: int)
    requires
        offset >= 0,
        a >= 0,
        b >= 0,
    ensures
        window(view, offset, a) + window(view, offset + a, b) == window(view, offset, a + b),
{
    assert(window(view, offset, a) + window(view, offset + a, b) =~= window(view, offset, a + b));
}

/// A read from offset 0 of at least the shown size returns the whole shown file, so the
/// size a file reports (`view_size`) is the number of bytes a full read returns.
pub proof fn law_full_read_is_view(view: Seq<u8>, len: int)
    requires
        len >= view.len(),
    ensures
        window(view, 0, len) == view,
        window(view, 0, len).len() == view.len(),
{
    assert(window(view, 0, len) =~= view);
}

/// What is saved through the mount reads back unchanged, wherever the file's encoding
/// holds the text: a write at offset 0 stores `data`, read in the target encoding, encoded
/// in the file's encoding `src`; when decoding those bytes in `src` gives the text back
/// and the target encoding writes the text as `data` (encoding_rs promises neither in
/// general, so both are asked for), a read of at least `data`'s length returns `data`.
pub proof fn law_write_then_read(v: EncodingVfs, rel_path: Seq<char>, data: Seq<u8>, src: Seq<char>, len: int)
    requires
        !passthrough(v.filter@.0, slashed(rel_path)),
        len >= data.len(),
        spec_decode(src, spec_encode(src, source_text(data, v.target_encoding@)).0).0 == source_text(
            data,
            v.target_encoding@,
        ),
        spec_encode(v.target_encoding@, source_text(data, v.target_encoding@)).0 == data,
    ensures
        window(
            file_view(&v, rel_path, spec_encode(src, source_text(data, v.target_encoding@)).0, src),
            0,
            len,
        ) == data,
{
    let stored = spec_encode(src, source_text(data, v.target_encoding@)).0;
    assert(file_view(&v, rel_path, stored, src) == data);
    law_full_read_is_view(data, len);
}

/// A listing agrees with a lookup: an entry of directory `rel_dir` is listed exactly
/// when its own path, `rel_dir` joined with its name, is visible (not hidden), which is
/// when `path_exists` answers yes for it on an existing file. The name alone does not
/// decide: a rule such as `docs/*.tmp` hides `a.tmp` inside `docs` only.
pub proof fn law_listing_agrees_with_lookup(v: &EncodingVfs, rel_dir: Seq<char>, entries: Seq<DirEntry>, e: DirEntry)
    ensures
        entries.filter(|x: DirEntry| entry_visible(v, rel_dir, x)).contains(e) <==> (entries.contains(e)
            && !hidden(v.filter@.1, slashed(join(rel_dir, e.name@)))),
{
    let pred = |x: DirEntry| entry_visible(v, rel_dir, x);
    if entries.contains(e) && pred(e) {
        let i = choose|i: int| 0 <= i < entries.len() && entries[i] == e;
        entries.lemma_filter_contains(pred, i);
    }
    if entries.filter(pred).contains(e) {
        entries.lemma_filter_contains_rev(pred, e);
    }
}

} // verus!
