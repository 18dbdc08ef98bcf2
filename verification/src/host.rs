//! Decisions of the platform hosts that serve the filesystem: the open-file table of
//! the FUSE host and the path, attribute and directory-listing rules of the WinFsp host.

use vstd::prelude::*;
use std::collections::HashMap;
use crate::error::VfsError;
use crate::git::{strip_prefix, stripped};
use crate::text::{chars_of, string_of, str_eq};
use crate::vfs::{DirEntry, EncodingVfs, join, join_path};

verus! {

broadcast use vstd::std_specs::hash::group_hash_axioms;

/// The decimal digits of `n`.
pub open spec fn decimal(n: nat) -> Seq<char>
    decreases n,
{
    if n < 10 {
        seq![(('0' as u32) + n) as char]
    } else {
        decimal(n / 10) + seq![(('0' as u32) + (n % 10)) as char]
    }
}

fn digit(d: u64) -> (c: char)
    requires
        d < 10,
    ensures
        c == (('0' as u32) + d) as char,
{
    let b: u8 = 48u8 + (d as u8);
    b as char
}

/// The decimal representation of a number.
pub fn decimal_string(n: u64) -> (r: String)
    ensures
        r@ == decimal(n as nat),
    decreases n,
{
    if n < 10 {
        let mut s = String::new();
        s.push(digit(n));
        assert(s@ =~= decimal(n as nat));
        s
    } else {
        let mut s = decimal_string(n / 10);
        s.push(digit(n % 10));
        assert(s@ =~= decimal(n as nat));
        s
    }
}

/// A path relative to the backend directory: `full` without the backend's components
/// in front, or `full` itself when it is not below the backend (components split as
/// Windows splits them when `windows_rules`).
pub open spec fn relative_to_backend(backend: Seq<char>, full: Seq<char>, windows_rules: bool) -> Seq<char> {
    match stripped(full, backend, windows_rules) {
        Some(r) => r,
        None => full,
    }
}

/// The path of `full` relative to the backend directory.
pub fn rel_path(backend: &str, full: &str, windows_rules: bool) -> (r: String)
    ensures
        r@ == relative_to_backend(backend@, full@, windows_rules),
{
    match strip_prefix(full, backend, windows_rules) {
        Some(r) => r,
        None => String::from_str(full),
    }
}

/// State of an open file handle.
pub struct OpenFile {
    pub path: String,
    pub is_dir: bool,
    pub dir_entries: Option<Vec<DirEntry>>,
    pub dir_index: usize,
}

/// The FUSE host: the filesystem plus the table of open file handles.
pub struct FuseVfsHost {
    pub vfs: EncodingVfs,
    pub open_files: HashMap<u64, OpenFile>,
    pub next_fh: u64,
    pub next_ino: u64,
    pub root_ino: u64,
}

impl FuseVfsHost {
    /// The open file handles.
    pub open spec fn handles(&self) -> Map<u64, OpenFile> {
        self.open_files@
    }

    /// The handle the next open gets.
    pub open spec fn next_handle(&self) -> u64 {
        self.next_fh
    }

    /// The inode number the next allocation gets.
    pub open spec fn next_inode(&self) -> u64 {
        self.next_ino
    }

    /// The root's inode number.
    pub open spec fn root_inode(&self) -> u64 {
        self.root_ino
    }

    /// Every open handle is below the next handle to give out.
    pub open spec fn wf(&self) -> bool {
        forall|h: u64| #[trigger] self.handles().dom().contains(h) ==> h < self.next_handle()
    }

    /// A host with no open files; handles start at 1 and inodes at 2 (the root is 1).
    pub fn new(vfs: EncodingVfs) -> (r: FuseVfsHost)
        ensures
            r.handles() == Map::<u64, OpenFile>::empty(),
            r.next_handle() == 1,
            r.next_inode() == 2,
            r.root_inode() == 1,
            r.vfs == vfs,
            r.wf(),
    {
        FuseVfsHost { vfs, open_files: HashMap::new(), next_fh: 1, next_ino: 2, root_ino: 1 }
    }

    /// Opens a handle for a path: the next handle number, which no open file holds.
    pub fn alloc_fh(&mut self, path: String, is_dir: bool) -> (fh: u64)
        requires
            old(self).next_handle() < u64::MAX,
        ensures
            fh == old(self).next_handle(),
            old(self).wf() ==> !old(self).handles().dom().contains(fh),
            final(self).next_handle() == fh + 1,
            final(self).handles() == old(self).handles().insert(
                fh,
                OpenFile { path, is_dir, dir_entries: None, dir_index: 0 },
            ),
            final(self).next_inode() == old(self).next_inode(),
            final(self).root_inode() == old(self).root_inode(),
            final(self).vfs == old(self).vfs,
            old(self).wf() ==> final(self).wf(),
    {
        let fh = self.next_fh;
        self.next_fh = self.next_fh + 1;
        self.open_files.insert(fh, OpenFile { path, is_dir, dir_entries: None, dir_index: 0 });
        proof {
            if old(self).wf() {
                assert forall|h: u64| #[trigger] self.handles().dom().contains(h) implies h
                    < self.next_handle() by {
                    if h != fh {
                        assert(old(self).handles().dom().contains(h));
                    }
                }
            }
        }
        fh
    }

    /// Closes a handle.
    pub fn free_fh(&mut self, fh: u64)
        ensures
            final(self).handles() == old(self).handles().remove(fh),
            final(self).next_handle() == old(self).next_handle(),
            final(self).next_inode() == old(self).next_inode(),
            final(self).root_inode() == old(self).root_inode(),
            final(self).vfs == old(self).vfs,
            old(self).wf() ==> final(self).wf(),
    {
        self.open_files.remove(&fh);
    }

    /// Hands out the next inode number.
    pub fn alloc_ino(&mut self) -> (ino: u64)
        requires
            old(self).next_inode() < u64::MAX,
        ensures
            ino == old(self).next_inode(),
            final(self).next_inode() == ino + 1,
            final(self).handles() == old(self).handles(),
            final(self).next_handle() == old(self).next_handle(),
            final(self).root_inode() == old(self).root_inode(),
            final(self).vfs == old(self).vfs,
    {
        let ino = self.next_ino;
        self.next_ino = self.next_ino + 1;
        ino
    }

    /// The path, relative to the backend directory, of the file behind a handle; an
    /// unknown handle is reported as not found.
    pub fn handle_path(&self, fh: u64) -> (r: Result<String, VfsError>)
        ensures
            !self.handles().dom().contains(fh) ==> (r matches Err(VfsError::NotFound(m)) && m@
                == "file handle "@ + decimal(fh as nat)),
            self.handles().dom().contains(fh) ==> (r matches Ok(p) && p@ == relative_to_backend(
                self.vfs.backend_dir@,
                self.handles()[fh].path@,
                false,
            )),
    {
        match self.open_files.get(&fh) {
            None => {
                let mut m = String::from_str("file handle ");
                let digits = decimal_string(fh);
                m.append(digits.as_str());
                Err(VfsError::NotFound(m))
            },
            Some(file) => Ok(rel_path(self.vfs.backend_dir.as_str(), file.path.as_str(), false)),
        }
    }
}

/// `s` without its leading `c` characters.
pub open spec fn trim_start_char(s: Seq<char>, c: char) -> Seq<char>
    decreases s.len(),
{
    if s.len() > 0 && s[0] == c {
        trim_start_char(s.drop_first(), c)
    } else {
        s
    }
}

/// The backend path of a name as WinFsp gives it (`\dir\file`): leading backslashes are
/// dropped and the rest is joined onto the backend; an empty rest is the backend itself.
pub open spec fn resolved(backend: Seq<char>, name: Seq<char>) -> Seq<char> {
    let t = trim_start_char(name, '\\');
    if t.len() == 0 {
        backend
    } else {
        join(backend, t)
    }
}

/// Resolves a WinFsp file name to its backend path.
pub fn resolve_path(backend: &str, name: &str) -> (r: String)
    ensures
        r@ == resolved(backend@, name@),
{
    let chars = chars_of(name);
    let mut a: usize = 0;
    assert(chars@.subrange(0, chars@.len() as int) =~= chars@);
    while a < chars.len() && chars[a] == '\\'
        invariant
            chars@ == name@,
            a <= chars@.len(),
            trim_start_char(chars@.subrange(a as int, chars@.len() as int), '\\') == trim_start_char(name@, '\\'),
        decreases chars@.len() - a,
    {
        assert(chars@.subrange(a as int, chars@.len() as int).drop_first() =~= chars@.subrange(a + 1, chars@.len() as int));
        a += 1;
    }
    let rest = crate::filter::sub_chars(&chars, a, chars.len());
    if rest.len() == 0 {
        return String::from_str(backend);
    }
    let rest_str = string_of(&rest);
    join_path(backend, rest_str.as_str())
}

/// Windows file attributes: directory (0x10) or normal file (0x80).
pub fn file_attributes(is_dir: bool) -> (r: u32)
    ensures
        r == (if is_dir {
            0x10u32
        } else {
            0x80u32
        }),
{
    if is_dir {
        0x10
    } else {
        0x80
    }
}

/// Why an open is refused.
#[derive(Debug, Clone, Copy, PartialEq, Eq)]
pub enum OpenRefusal {
    /// The file does not exist.
    NotFound,
    /// A directory was asked for, and the file is not one.
    NotADirectory,
}

/// Whether an open may proceed: the file must exist and not be hidden (a hidden file is
/// invisible at the mount point, so it is not found), and when the options ask for a
/// directory (bit 0x1) it must be one. A directory may be opened without asking.
pub fn open_check(backend_exists: bool, hidden: bool, is_dir: bool, create_options: u32) -> (r: Result<(), OpenRefusal>)
    ensures
        !backend_exists || hidden ==> r == Err::<(), OpenRefusal>(OpenRefusal::NotFound),
        backend_exists && !hidden && (create_options & 1u32) != 0 && !is_dir ==> r == Err::<(), OpenRefusal>(OpenRefusal::NotADirectory),
        backend_exists && !hidden && !((create_options & 1u32) != 0 && !is_dir) ==> r is Ok,
{
    if !backend_exists || hidden {
        return Err(OpenRefusal::NotFound);
    }
    let is_dir_requested = create_options & 1u32 != 0;
    if is_dir_requested && !is_dir {
        return Err(OpenRefusal::NotADirectory);
    }
    Ok(())
}

/// Whether a create makes a directory: asked for by the options (bit 0x1) or by the
/// attributes (0x10).
pub fn create_is_dir(create_options: u32, file_attributes: u32) -> (r: bool)
    ensures
        r == ((create_options & 1u32) != 0 || (file_attributes & 0x10u32) != 0),
{
    create_options & 1u32 != 0 || file_attributes & 0x10u32 != 0
}

/// Where a directory listing resumes. Without a marker the listing starts with `.` and
/// `..` and then every entry; with one it resumes after the first entry of that name,
/// and lists nothing when no entry has it.
pub fn listing_start(names: &Vec<String>, marker: Option<&str>) -> (r: (bool, usize))
    ensures
        r.0 == (marker is None),
        marker is None ==> r.1 == 0,
        marker is Some ==> ({
            let m = marker.unwrap()@;
            (exists|k: int|
                0 <= k < names@.len() && names@[k]@ == m && r.1 == k + 1 && forall|j: int|
                    0 <= j < k ==> names@[j]@ != m) || ((forall|j: int|
                0 <= j < names@.len() ==> names@[j]@ != m) && r.1 == names@.len())
        }),
{
    match marker {
        None => (true, 0),
        Some(m) => {
            let mut i: usize = 0;
            while i < names.len()
                invariant
                    i <= names@.len(),
                    marker == Some(m),
                    forall|j: int| 0 <= j < i ==> names@[j]@ != m@,
                decreases names@.len() - i,
            {
                if str_eq(names[i].as_str(), m) {
                    return (false, i + 1);
                }
                i += 1;
            }
            (false, names.len())
        },
    }
}

} // verus!
