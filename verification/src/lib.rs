//! A verified decoder for the binary class-file format.
//!
//! One linear pass over a big-endian byte stream reconstructs the class
//! record: the constant pool, the field descriptors, and their attribute
//! trees. Decoding either yields the whole structure or exactly one typed
//! error; nothing is returned past the point of failure.
//!
//! The byte layout itself is written down once, as the specification
//! functions of [`format`]; every executable decoder in [`decode`] and
//! [`reader`] is proved to return exactly what those functions say.

pub mod decode;
pub mod error;
pub mod model;
pub mod format;
pub mod laws;
pub mod reader;
