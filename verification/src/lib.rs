//! A composable binary-deserialization engine: structured values are read
//! out of a seekable in-memory byte stream under a configurable byte order,
//! with per-type construction arguments threaded through nested decoders and
//! a two-phase construction model (primary decode, then a finalize pass).

pub mod binread;
pub mod builder;
pub mod endian;
pub mod error;
pub mod io;
pub mod laws;
pub mod numeric;
pub mod options;
pub mod primitives;
pub mod sequences;
pub mod tuples;
pub mod wrappers;

pub use binread::BinRead;
pub use binread::BinReaderExt;
pub use binread::CloneArgs;
pub use binread::DefaultArgs;
pub use builder::FieldSlot;
pub use builder::VecArgsBuilder;
pub use endian::Endian;
pub use error::BinResult;
pub use error::Error;
pub use error::IoErrorKind;
pub use error::not_enough_bytes;
pub use io::Cursor;
pub use io::StreamView;
pub use options::ReadOptions;
pub use sequences::VecArgs;
pub use primitives::read_byte_vec;
