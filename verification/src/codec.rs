//! The trusted boundary to the archive and compression codecs. Each
//! function here wraps one operation of the `tar` or `zstd` crate; the
//! names `tar_contents`, `tar_bytes`, `untar`, `zstd_frame` and `unzstd`
//! stand for results that are functions of the inputs alone and that no
//! short formula could state.

use vstd::prelude::*;
use crate::tree::{EntryView, TreeEntry, entry_view_wf, normal_path, tree_view};

verus! {

/// An archive builder that serializes entries into an in-memory byte
/// stream. It holds the `tar` crate's builder, which Verus cannot see;
/// `tar_contents` stands for the entries appended so far.
#[verifier::external_body]
pub struct ArchiveBuilder {
    inner: tar::Builder<Vec<u8>>,
}

/// The entries appended so far to an in-memory archive builder.
pub uninterp spec fn tar_contents(b: ArchiveBuilder) -> Seq<EntryView>;

/// The serialized archive stream that a finished builder yields for a
/// given entry sequence. It is named only for well-formed entries, whose
/// normal-form paths the serializer stores verbatim on every platform
/// (a backslash, which some platforms rewrite, is not such a path's
/// character).
pub uninterp spec fn tar_bytes(entries: Seq<EntryView>) -> Seq<u8>;

/// The entry sequence that parsing an archive stream yields, or `None`
/// where the stream is not a well-formed archive. Named for the build
/// platform: platforms differ in how entry-name bytes that are not valid
/// Unicode are read (lossily here, rejected elsewhere).
pub uninterp spec fn untar(bytes: Seq<u8>) -> Option<Seq<EntryView>>;

/// The compressed frame that the compressor produces for given bytes at
/// the default level.
pub uninterp spec fn zstd_frame(data: Seq<u8>) -> Seq<u8>;

/// The bytes that decompressing a stream yields, or `None` where the
/// stream is not a well-formed compressed frame.
pub uninterp spec fn unzstd(bytes: Seq<u8>) -> Option<Seq<u8>>;

/// Relies on tar::Builder::new over an empty byte vector: a fresh
/// builder has no entries.
#[verifier::external_body]
pub(crate) fn tar_builder_new() -> (r: ArchiveBuilder)
    ensures
        tar_contents(r) == Seq::<EntryView>::empty(),
{
    ArchiveBuilder { inner: tar::Builder::new(Vec::new()) }
}

/// Relies on tar::Builder::append_data, which records the given path,
/// entry type and contents as the next entry of the archive. A header is
/// built from the entry's fields; fixed default permissions stand in for
/// filesystem metadata, which the tree model does not carry. A path in
/// normal form is stored verbatim — a short one in the header's name
/// field, a long one through the long-name extension — and appending to
/// an in-memory buffer cannot fail, so the call succeeds; the serializer
/// rejects or rewrites only paths that normal form rules out (absolute
/// or empty paths, `.` or `..` components, doubled separators, NUL,
/// backslash).
#[verifier::external_body]
pub(crate) fn tar_builder_append(
    b: &mut ArchiveBuilder,
    path: &String,
    is_dir: bool,
    data: &Vec<u8>,
) -> (r: Result<(), String>)
    requires
        normal_path(path@),
        is_dir ==> data@.len() == 0,
    ensures
        r is Ok,
        tar_contents(*final(b)) == tar_contents(*old(b)).push((path@, is_dir, data@)),
{
    let mut header = tar::Header::new_gnu();
    header.set_entry_type(if is_dir { tar::EntryType::dir() } else { tar::EntryType::file() });
    header.set_mode(if is_dir { 0o755 } else { 0o644 });
    header.set_size(data.len() as u64);
    b.inner.append_data(&mut header, path.as_str(), data.as_slice()).map_err(|e| format!("{}", e))
}

/// Relies on tar::Builder::into_inner, which finishes the archive framing
/// and yields the serialized stream, and on tar::Archive reading back,
/// unchanged, well-formed entries that tar::Builder appended: their
/// normal-form paths are stored and parsed verbatim (normalization only
/// touches paths that normal form rules out). Finishing writes the
/// trailing blocks to an in-memory buffer, which cannot fail.
#[verifier::external_body]
pub(crate) fn tar_builder_finish(b: ArchiveBuilder) -> (r: Result<Vec<u8>, String>)
    requires
        forall|i: int| 0 <= i < tar_contents(b).len() ==> entry_view_wf(#[trigger] tar_contents(b)[i]),
    ensures
        r is Ok,
        r->Ok_0@ == tar_bytes(tar_contents(b)),
        untar(r->Ok_0@) == Some(tar_contents(b)),
{
    b.inner.into_inner().map_err(|e| format!("{}", e))
}

/// Relies on tar::Archive over an in-memory stream: the parse outcome is
/// a function of the bytes alone, and each entry's path, type and
/// contents are read back as stored.
#[verifier::external_body]
pub(crate) fn tar_parse(bytes: &Vec<u8>) -> (r: Result<Vec<TreeEntry>, String>)
    ensures
        r is Ok <==> untar(bytes@) is Some,
        r is Ok ==> tree_view(r->Ok_0@) == untar(bytes@)->0,
{
    let mut archive = tar::Archive::new(bytes.as_slice());
    let mut out: Vec<TreeEntry> = Vec::new();
    for entry in archive.entries().map_err(|e| format!("{}", e))? {
        let mut entry = entry.map_err(|e| format!("{}", e))?;
        let path = entry.path().map_err(|e| format!("{}", e))?.to_string_lossy().into_owned();
        let is_dir = entry.header().entry_type().is_dir();
        let mut data: Vec<u8> = Vec::new();
        std::io::Read::read_to_end(&mut entry, &mut data).map_err(|e| format!("{}", e))?;
        out.push(TreeEntry { path, is_dir, data });
    }
    Ok(out)
}

/// Relies on zstd::stream::encode_all at level 0, the codec's default:
/// the frame is a function of the input bytes, decompressing it yields
/// them back, and encoding from one in-memory buffer to another cannot
/// fail.
#[verifier::external_body]
pub(crate) fn zstd_compress(data: &Vec<u8>) -> (r: Result<Vec<u8>, String>)
    ensures
        r is Ok,
        r->Ok_0@ == zstd_frame(data@),
        unzstd(r->Ok_0@) == Some(data@),
{
    zstd::stream::encode_all(data.as_slice(), 0).map_err(|e| format!("{}", e))
}

/// Relies on zstd::stream::decode_all over an in-memory stream: the
/// outcome is a function of the bytes alone.
#[verifier::external_body]
pub(crate) fn zstd_decompress(data: &Vec<u8>) -> (r: Result<Vec<u8>, String>)
    ensures
        r is Ok <==> unzstd(data@) is Some,
        r is Ok ==> r->Ok_0@ == unzstd(data@)->0,
{
    zstd::stream::decode_all(data.as_slice()).map_err(|e| format!("{}", e))
}

} // verus!
