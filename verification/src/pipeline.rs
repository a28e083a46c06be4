//! The compression pipeline: a directory tree is serialized into an
//! archive stream and the stream compressed into a single frame; the
//! inverse decompresses the frame and parses the stream back into the
//! tree. Whenever compression succeeds, decompressing its output yields
//! the original tree.

use vstd::prelude::*;
use crate::codec::{
    tar_builder_append, tar_builder_finish, tar_builder_new, tar_bytes, tar_contents, tar_parse,
    untar, unzstd, zstd_compress, zstd_decompress, zstd_frame,
};
use crate::tree::{EntryView, TreeEntry, entry_view_wf, tree_view, tree_wf};

verus! {

/// Why the pipeline failed. Path validation has its own error type and
/// happens before the pipeline runs.
#[derive(Debug)]
pub enum PackError {
    /// The compressed stream could not be produced or read back
    /// (a corrupt or truncated frame, or a compressor failure).
    Codec(String),
    /// The archive stream inside the frame could not be produced or
    /// parsed (malformed entry framing, or a serializer failure).
    Format(String),
}

/// The archive bytes that compressing a tree yields: the serialized
/// entry stream wrapped in a compressed frame.
pub open spec fn spec_compress(t: Seq<EntryView>) -> Seq<u8> {
    zstd_frame(tar_bytes(t))
}

/// The tree that decompressing archive bytes yields: the frame is
/// decompressed, then the entry stream parsed; `None` where either
/// stage rejects its input.
pub open spec fn spec_decompress(bytes: Seq<u8>) -> Option<Seq<EntryView>> {
    match unzstd(bytes) {
        Option::None => Option::None,
        Option::Some(stream) => untar(stream),
    }
}

/// Compresses a directory tree into a single archive: every entry is
/// appended, in order, to the archive stream, and the stream is wrapped
/// in a compressed frame. On a well-formed tree this succeeds — the
/// serializer and the compressor work buffer to buffer — and the output
/// is exactly the archive of the given tree; decompressing it yields the
/// tree back.
pub fn compress_tree(entries: &Vec<TreeEntry>) -> (r: Result<Vec<u8>, PackError>)
    requires
        tree_wf(entries@),
    ensures
        r is Ok,
        r->Ok_0@ == spec_compress(tree_view(entries@)),
        spec_decompress(r->Ok_0@) == Some(tree_view(entries@)),
{
    let mut builder = tar_builder_new();
    let mut i: usize = 0;
    while i < entries.len()
        invariant
            tree_wf(entries@),
            i <= entries.len(),
            tar_contents(builder) == tree_view(entries@.subrange(0, i as int)),
        decreases entries.len() - i,
    {
        let entry = &entries[i];
        assert(entries@[i as int].wf());
        match tar_builder_append(&mut builder, &entry.path, entry.is_dir, &entry.data) {
            Ok(()) => {},
            Err(msg) => {
                return Err(PackError::Format(msg));
            },
        }
        i = i + 1;
        proof {
            assert(entries@.subrange(0, i as int) == entries@.subrange(0, i - 1).push(
                entries@[i - 1],
            ));
            assert(tree_view(entries@.subrange(0, i as int)) == tree_view(
                entries@.subrange(0, i - 1),
            ).push(entries@[i - 1]@));
        }
    }
    proof {
        assert(entries@.subrange(0, entries@.len() as int) == entries@);
        assert forall|k: int| 0 <= k < tar_contents(builder).len() implies entry_view_wf(
            #[trigger] tar_contents(builder)[k],
        ) by {
            assert(tar_contents(builder)[k] == entries@[k]@);
            assert(entries@[k].wf());
        }
    }
    let stream = match tar_builder_finish(builder) {
        Ok(stream) => stream,
        Err(msg) => {
            return Err(PackError::Format(msg));
        },
    };
    match zstd_compress(&stream) {
        Ok(frame) => Ok(frame),
        Err(msg) => Err(PackError::Codec(msg)),
    }
}

/// Decompresses archive bytes back into a directory tree. It succeeds
/// exactly where the bytes decode: the compressed frame is well formed
/// and the entry stream inside it parses. A frame failure is a codec
/// error; an entry-stream failure is a format error.
pub fn decompress_tree(bytes: &Vec<u8>) -> (r: Result<Vec<TreeEntry>, PackError>)
    ensures
        r is Ok <==> spec_decompress(bytes@) is Some,
        r is Ok ==> tree_view(r->Ok_0@) == spec_decompress(bytes@)->0,
        unzstd(bytes@) is None ==> r->Err_0 is Codec,
        unzstd(bytes@) is Some && untar(unzstd(bytes@)->0) is None ==> r->Err_0 is Format,
{
    let stream = match zstd_decompress(bytes) {
        Ok(stream) => stream,
        Err(msg) => {
            return Err(PackError::Codec(msg));
        },
    };
    match tar_parse(&stream) {
        Ok(entries) => Ok(entries),
        Err(msg) => Err(PackError::Format(msg)),
    }
}

/// Round trip: compressing a well-formed tree and decompressing the
/// archive succeeds and reproduces exactly the relative paths, directory
/// marks and file contents of that tree.
pub fn round_trip(entries: &Vec<TreeEntry>) -> (r: Result<Vec<TreeEntry>, PackError>)
    requires
        tree_wf(entries@),
    ensures
        r is Ok,
        tree_view(r->Ok_0@) == tree_view(entries@),
{
    let archive = match compress_tree(entries) {
        Ok(archive) => archive,
        Err(e) => {
            return Err(e);
        },
    };
    decompress_tree(&archive)
}

} // verus!
