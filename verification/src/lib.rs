//! Directory archiver: packages a directory tree into a single
//! zstd-compressed tar archive, and extracts such an archive back
//! into a directory tree.

mod codec;
mod dispatch;
mod naming;
mod pipeline;
mod tree;
mod validate;

pub use dispatch::plan_compress;
pub use dispatch::plan_decompress;
pub use naming::archive_file_name;
pub use naming::archive_name_spec;
pub use naming::dec_seq;
pub use naming::digit_char;
pub use naming::entry_path;
pub use naming::root_entry_name;
pub use pipeline::PackError;
pub use pipeline::compress_tree;
pub use pipeline::decompress_tree;
pub use pipeline::round_trip;
pub use pipeline::spec_compress;
pub use pipeline::spec_decompress;
pub use tree::EntryView;
pub use tree::TreeEntry;
pub use tree::dot_component_at;
pub use tree::entry_view_wf;
pub use tree::is_normal_path;
pub use tree::normal_path;
pub use tree::path_char_ok;
pub use tree::tree_view;
pub use tree::tree_wf;
pub use validate::PathRole;
pub use validate::PathStatus;
pub use validate::ValidationError;
pub use validate::fits_role;
pub use validate::validate_path;
