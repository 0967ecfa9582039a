//! A parser for ncm containers: the segments of a container, the key and the
//! metadata that it wraps, the cipher of its audio, and the typed record of
//! its metadata.

pub mod container;
pub mod decimal;
pub mod envelope;
pub mod error;
pub mod file;
pub mod json;
pub mod keystream;
pub mod metadata;
pub mod segment;
pub mod source;

pub use container::{from_iter, from_reader};
pub use error::ParseError;
pub use file::NCMFile;
pub use metadata::NCMMetadata;
pub use source::{ByteIter, ByteReader};
