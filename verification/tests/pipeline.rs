use packdir::{PackError, TreeEntry, compress_tree, decompress_tree, round_trip};

fn dir_entry(path: &str) -> TreeEntry {
    TreeEntry { path: String::from(path), is_dir: true, data: Vec::new() }
}

fn file_entry(path: &str, data: &[u8]) -> TreeEntry {
    TreeEntry { path: String::from(path), is_dir: false, data: data.to_vec() }
}

fn nested_tree() -> Vec<TreeEntry> {
    vec![
        dir_entry("root"),
        file_entry("root/a.txt", b"hello world"),
        dir_entry("root/sub"),
        file_entry("root/sub/deep.bin", &[0u8, 1, 2, 254, 255]),
        dir_entry("root/sub/inner"),
        file_entry("root/sub/inner/empty.txt", b""),
    ]
}

fn assert_same_tree(left: &[TreeEntry], right: &[TreeEntry]) {
    assert_eq!(left.len(), right.len());
    for (l, r) in left.iter().zip(right.iter()) {
        assert_eq!(l.path, r.path);
        assert_eq!(l.is_dir, r.is_dir);
        assert_eq!(l.data, r.data);
    }
}

#[test]
fn nested_tree_round_trips() {
    let tree = nested_tree();
    let archive = compress_tree(&tree).unwrap();
    let out = decompress_tree(&archive).unwrap();
    assert_same_tree(&tree, &out);
}

#[test]
fn round_trip_composition_reproduces_the_tree() {
    let tree = nested_tree();
    let out = round_trip(&tree).unwrap();
    assert_same_tree(&tree, &out);
}

#[test]
fn empty_directory_round_trips() {
    let tree = vec![dir_entry("root")];
    let archive = compress_tree(&tree).unwrap();
    let out = decompress_tree(&archive).unwrap();
    assert_eq!(out.len(), 1);
    assert_eq!(out[0].path, "root");
    assert!(out[0].is_dir);
    assert!(out[0].data.is_empty());
    assert_eq!(out.iter().filter(|e| !e.is_dir).count(), 0);
}

#[test]
fn empty_tree_round_trips() {
    let tree: Vec<TreeEntry> = Vec::new();
    let archive = compress_tree(&tree).unwrap();
    let out = decompress_tree(&archive).unwrap();
    assert!(out.is_empty());
}

#[test]
fn archive_is_a_compressed_frame() {
    let tree = nested_tree();
    let archive = compress_tree(&tree).unwrap();
    // The zstd frame magic number; the archive is the frame, not the
    // raw entry stream.
    assert_eq!(&archive[0..4], &[0x28, 0xb5, 0x2f, 0xfd]);
}

#[test]
fn compressing_twice_gives_the_same_bytes() {
    let tree = nested_tree();
    let first = compress_tree(&tree).unwrap();
    let second = compress_tree(&tree).unwrap();
    assert_eq!(first, second);
}

#[test]
fn garbage_bytes_fail_as_codec_error() {
    let garbage = vec![7u8; 64];
    let r = decompress_tree(&garbage);
    assert!(matches!(r, Err(PackError::Codec(_))));
}

#[test]
fn truncated_archive_fails() {
    let tree = nested_tree();
    let archive = compress_tree(&tree).unwrap();
    let truncated = archive[0..archive.len() / 2].to_vec();
    let r = decompress_tree(&truncated);
    assert!(matches!(r, Err(PackError::Codec(_))));
}

#[test]
fn corrupted_archive_fails() {
    let tree = nested_tree();
    let mut archive = compress_tree(&tree).unwrap();
    let mid = archive.len() / 2;
    archive[mid] = archive[mid].wrapping_add(1);
    let r = decompress_tree(&archive);
    assert!(r.is_err());
}

#[test]
fn frame_around_a_malformed_entry_stream_fails_as_format_error() {
    let junk = b"this is not an archive entry stream".to_vec();
    let frame = zstd::stream::encode_all(junk.as_slice(), 0).unwrap();
    let r = decompress_tree(&frame);
    assert!(matches!(r, Err(PackError::Format(_))));
}

#[test]
fn long_paths_round_trip() {
    let deep = "root/".to_string() + &"d/".repeat(70) + "leaf.txt";
    let tree = vec![file_entry(&deep, b"deep contents")];
    let out = round_trip(&tree).unwrap();
    assert_same_tree(&tree, &out);
}

#[test]
fn large_file_round_trips() {
    let mut data = Vec::new();
    for i in 0..100000u32 {
        data.push((i % 251) as u8);
    }
    let tree = vec![dir_entry("root"), file_entry("root/big.bin", &data)];
    let out = round_trip(&tree).unwrap();
    assert_same_tree(&tree, &out);
}
