//! Archive decoding.
//!
//! An engine transmits a filesystem subtree as a tar byte stream. The
//! stream is decoded here into plain entries — relative path, permission
//! bits, kind, contents — and each entry path is vetted before anything is
//! written to disk: it must be relative and free of `..` components, so that
//! no entry can land outside the destination directory.

use vstd::prelude::*;

verus! {

/// One decoded archive entry: its path relative to the destination, its
/// permission bits, whether it is a directory, and its contents.
pub struct ArchiveEntry {
    pub path: String,
    pub mode: u32,
    pub is_dir: bool,
    pub data: Vec<u8>,
}

impl View for ArchiveEntry {
    type V = (Seq<char>, u32, bool, Seq<u8>);

    open spec fn view(&self) -> (Seq<char>, u32, bool, Seq<u8>) {
        (self.path@, self.mode, self.is_dir, self.data@)
    }
}

/// The entries a tar byte stream decodes to, or `None` when the stream is
/// not a well-formed archive; a function of the bytes alone.
pub uninterp spec fn tar_entries_of(bytes: Seq<u8>) -> Option<
    Seq<(Seq<char>, u32, bool, Seq<u8>)>,
>;

/// Relies on tar::Archive: decoding a tar byte stream yields its entries in
/// order, each with its relative path, permission bits, kind and contents,
/// and depends on the bytes alone.
#[verifier::external_body]
pub(crate) fn read_archive_entries(bytes: &Vec<u8>) -> (r: Option<Vec<ArchiveEntry>>)
    ensures
        r is Some <==> tar_entries_of(bytes@) is Some,
        r matches Some(es) ==> tar_entries_of(bytes@) == Some(
            es@.map_values(|e: ArchiveEntry| e@),
        ),
{
    let mut archive = tar::Archive::new(&bytes[..]);
    let mut out: Vec<ArchiveEntry> = Vec::new();
    for entry in archive.entries().ok()? {
        let mut entry = entry.ok()?;
        let path = entry.path().ok()?.to_string_lossy().into_owned();
        let mode = entry.header().mode().ok()?;
        let is_dir = entry.header().entry_type().is_dir();
        let mut data: Vec<u8> = Vec::new();
        std::io::Read::read_to_end(&mut entry, &mut data).ok()?;
        out.push(ArchiveEntry { path, mode, is_dir, data });
    }
    Some(out)
}

/// True when a `..` path component starts at position `i` of `p`.
pub open spec fn dotdot_at(p: Seq<char>, i: int) -> bool {
    &&& 0 <= i && i + 2 <= p.len()
    &&& p[i] == '.' && p[i + 1] == '.'
    &&& (i == 0 || p[i - 1] == '/')
    &&& (i + 2 == p.len() || p[i + 2] == '/')
}

/// True when an entry path stays under the destination directory: it is
/// non-empty, relative, and has no `..` component.
pub open spec fn safe_entry_path(p: Seq<char>) -> bool {
    &&& p.len() > 0
    &&& p[0] != '/'
    &&& !(exists|i: int| dotdot_at(p, i))
}

/// True when every decoded entry's path is safe to write.
pub open spec fn all_entries_safe(es: Seq<(Seq<char>, u32, bool, Seq<u8>)>) -> bool {
    forall|i: int| 0 <= i < es.len() ==> safe_entry_path(#[trigger] es[i].0)
}

/// Decides whether an entry path stays under the destination directory.
pub fn is_safe_entry_path(p: &str) -> (r: bool)
    ensures
        r == safe_entry_path(p@),
{
    let n = p.unicode_len();
    if n == 0 {
        return false;
    }
    if p.get_char(0) == '/' {
        return false;
    }
    let mut i: usize = 0;
    while i < n
        invariant
            i <= n,
            n == p@.len(),
            forall|j: int| 0 <= j < i ==> !dotdot_at(p@, j),
        decreases n - i,
    {
        if n - i >= 2 && p.get_char(i) == '.' && p.get_char(i + 1) == '.' && (i == 0 || p.get_char(
            i - 1,
        ) == '/') && (i + 2 == n || p.get_char(i + 2) == '/') {
            proof {
                assert(dotdot_at(p@, i as int));
            }
            return false;
        }
        i = i + 1;
    }
    true
}

/// The position of the first entry whose path would escape the destination,
/// or `None` when every entry is safe to write.
pub fn find_unsafe_entry(entries: &Vec<ArchiveEntry>) -> (r: Option<usize>)
    ensures
        r is None <==> (forall|i: int|
            0 <= i < entries@.len() ==> safe_entry_path(#[trigger] entries@[i]@.0)),
        r matches Some(k) ==> k < entries@.len() && !safe_entry_path(entries@[k as int]@.0),
{
    let n = entries.len();
    let mut i: usize = 0;
    while i < n
        invariant
            i <= n,
            n == entries@.len(),
            forall|j: int| 0 <= j < i ==> safe_entry_path(#[trigger] entries@[j]@.0),
        decreases n - i,
    {
        if !is_safe_entry_path(entries[i].path.as_str()) {
            proof {
                assert(!safe_entry_path(entries@[i as int]@.0));
            }
            return Some(i);
        }
        i = i + 1;
    }
    None
}

} // verus!
