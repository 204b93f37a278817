//! Settings-persistence helper: resolves where an application's settings file
//! lives (from an app name, a location strategy, and a storage format) and
//! prepares the save, load, and delete steps against that path, delegating the
//! byte-level encoding to serde-based codec crates.
//!
//! Paths are modelled textually: a path is a `String`, and composition joins
//! components with `/`. The resolver never touches the filesystem.

mod codec;
mod error;
mod format;
mod record;
mod resolve;
mod store;

pub use codec::blank_indent;
pub use codec::decode;
pub use codec::decodes_to;
pub use codec::encode;
pub use codec::encode_then_decode;
pub use codec::encoded_bytes;
pub use codec::ini_bytes_of;
pub use codec::is_plain_key_char;
pub use codec::json_bytes_of;
pub use codec::pickle_bytes_of;
pub use codec::plain_key;
pub use codec::plain_keys;
pub use codec::pretty_json_bytes_of;
pub use codec::round_trip_keys;
pub use codec::toml_bytes_of;
pub use codec::yaml_bytes_of;
pub use error::Error;
pub use format::Format;
pub use format::PrettyJsonIndent;
pub use record::Record;
pub use record::empty_entries;
pub use record::record_entries;
pub use resolve::Abserde;
pub use resolve::Location;
pub use resolve::lemma_resolve_deterministic;
pub use store::DeletePlan;
pub use store::SavePlan;
pub use store::has_no_parent;
pub use store::is_parent_of;
pub use store::lemma_auto_parent;
pub use store::parent_of;
pub use store::saved_bytes_reload;
pub use store::splits_at_last_slash;
