//! Typed, zero-copy codecs and flag vocabularies for an embedded
//! transactional key-value store.

pub mod codecs;
pub mod flags;
pub mod unaligned_slice;

pub use unaligned_slice::UnalignedSlice;
pub use flags::{AllDatabaseFlags, DatabaseFlags, DeleteFlags, EnvFlags, PutFlags};
pub use codecs::{BigEndian, Bytes, LittleEndian, Str, Unit, I32, I64, U32, U64};
