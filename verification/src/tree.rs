//! The in-memory model of a directory tree: a sequence of entries, each
//! a relative path together with either file contents or a directory mark.
//! Compression turns such a sequence into archive bytes; decompression
//! recovers it.
//!
//! Entry paths are kept in normal form — non-empty, relative, with every
//! component a plain name — because the archive serializer stores exactly
//! such paths verbatim; anything else it would reject or silently rewrite.

use vstd::prelude::*;
use vstd::string::StrSliceExecFns;

verus! {

/// One entry of a directory tree: a relative path (the archive root name
/// followed by the path below it), whether it is a directory, and, for a
/// file, its bytes. A directory entry carries no bytes.
pub struct TreeEntry {
    pub path: String,
    pub is_dir: bool,
    pub data: Vec<u8>,
}

/// The mathematical form of one entry: path characters, the directory
/// mark, and the contents.
pub type EntryView = (Seq<char>, bool, Seq<u8>);

impl View for TreeEntry {
    type V = EntryView;

    open spec fn view(&self) -> EntryView {
        (self.path@, self.is_dir, self.data@)
    }
}

/// A character that may stand in an entry path: the serializer truncates
/// a stored name at a NUL byte, and rewrites a backslash on some
/// platforms.
pub open spec fn path_char_ok(c: char) -> bool {
    c != '\0' && c != '\\'
}

/// Whether a `.` or `..` path component begins at position `i` of `s`.
pub open spec fn dot_component_at(s: Seq<char>, i: int) -> bool
    recommends
        0 <= i < s.len(),
{
    &&& (i == 0 || s[i - 1] == '/')
    &&& s[i] == '.'
    &&& (i + 1 == s.len() || s[i + 1] == '/' || (s[i + 1] == '.' && (i + 2 == s.len() || s[i + 2]
        == '/')))
}

/// A path in normal form: non-empty and relative, no trailing or doubled
/// separator, no NUL or backslash, and every component a plain name (no
/// `.` or `..`). The archive serializer stores such a path verbatim and
/// parses it back unchanged.
pub open spec fn normal_path(s: Seq<char>) -> bool {
    &&& s.len() > 0
    &&& s[0] != '/'
    &&& s[s.len() - 1] != '/'
    &&& (forall|i: int| 0 <= i < s.len() ==> path_char_ok(#[trigger] s[i]))
    &&& (forall|i: int| 0 <= i < s.len() - 1 ==> !((#[trigger] s[i]) == '/' && s[i + 1] == '/'))
    &&& (forall|i: int| 0 <= i < s.len() ==> !dot_component_at(s, i))
}

/// A well-formed entry: its path is in normal form, and a directory
/// carries no bytes.
pub open spec fn entry_view_wf(e: EntryView) -> bool {
    &&& normal_path(e.0)
    &&& (e.1 ==> e.2.len() == 0)
}

impl TreeEntry {
    /// The entry's path is in normal form, and a directory entry holds
    /// no bytes.
    pub open spec fn wf(&self) -> bool {
        entry_view_wf(self@)
    }

    /// Decides `wf` for the caller that builds a tree from values Verus
    /// has not seen.
    pub fn check_wf(&self) -> (r: bool)
        ensures
            r == self.wf(),
    {
        is_normal_path(self.path.as_str()) && (!self.is_dir || self.data.len() == 0)
    }
}

/// The mathematical form of a whole tree.
pub open spec fn tree_view(entries: Seq<TreeEntry>) -> Seq<EntryView> {
    entries.map_values(|e: TreeEntry| e@)
}

/// Every entry of the tree is well formed.
pub open spec fn tree_wf(entries: Seq<TreeEntry>) -> bool {
    forall|i: int| 0 <= i < entries.len() ==> #[trigger] entries[i].wf()
}

/// Decides whether a path is in normal form.
pub fn is_normal_path(path: &str) -> (r: bool)
    ensures
        r == normal_path(path@),
{
    let n = path.unicode_len();
    if n == 0 {
        return false;
    }
    if path.get_char(0) == '/' || path.get_char(n - 1) == '/' {
        return false;
    }
    let mut i: usize = 0;
    while i < n
        invariant
            0 < n == path@.len(),
            i <= n,
            path@[0] != '/',
            path@[n - 1] != '/',
            forall|j: int| 0 <= j < i ==> path_char_ok(#[trigger] path@[j]),
            forall|j: int| 0 <= j < i && j < n - 1 ==> !((#[trigger] path@[j]) == '/' && path@[j
                + 1] == '/'),
            forall|j: int| 0 <= j < i ==> !dot_component_at(path@, j),
        decreases n - i,
    {
        let c = path.get_char(i);
        if c == '\0' || c == '\\' {
            assert(!path_char_ok(path@[i as int]));
            return false;
        }
        if c == '/' && i + 1 < n && path.get_char(i + 1) == '/' {
            return false;
        }
        if c == '.' && (i == 0 || path.get_char(i - 1) == '/') {
            if i + 1 == n || path.get_char(i + 1) == '/' {
                assert(dot_component_at(path@, i as int));
                return false;
            }
            if path.get_char(i + 1) == '.' && (i + 2 == n || path.get_char(i + 2) == '/') {
                assert(dot_component_at(path@, i as int));
                return false;
            }
        }
        assert(!dot_component_at(path@, i as int));
        i = i + 1;
    }
    true
}

} // verus!
